//! The arithmetic of the instruction set, as functions on words.

use vstd::prelude::*;

verus! {

/// The absolute value of `n`.
pub open spec fn magnitude(n: int) -> int {
    if n < 0 {
        -n
    } else {
        n
    }
}

/// The quotient of `n` by `d`, rounded towards zero; `d` is not 0.
pub open spec fn trunc_div(n: int, d: int) -> int {
    if (n < 0) == (d < 0) {
        magnitude(n) / magnitude(d)
    } else {
        -(magnitude(n) / magnitude(d))
    }
}

/// The remainder that goes with `trunc_div`: it has the sign of `n`.
pub open spec fn trunc_rem(n: int, d: int) -> int {
    if n < 0 {
        -(magnitude(n) % magnitude(d))
    } else {
        magnitude(n) % magnitude(d)
    }
}

/// HI and LO after a signed division of `x` by `y`. A division by zero
/// leaves the numerator in HI, and in LO 1 for a negative numerator, else
/// all ones. The one quotient that does not fit gives LO 0x8000_0000, HI 0.
pub open spec fn spec_div(x: u32, y: u32) -> (u32, u32) {
    let n = x as i32;
    let d = y as i32;
    if d == 0 {
        (
            x,
            if n < 0 {
                1u32
            } else {
                0xFFFF_FFFFu32
            },
        )
    } else if x == 0x8000_0000 && d == -1 {
        (0u32, 0x8000_0000u32)
    } else {
        (trunc_rem(n as int, d as int) as u32, trunc_div(n as int, d as int) as u32)
    }
}

/// HI and LO after an unsigned division of `x` by `y`. A division by zero
/// leaves the numerator in HI and all ones in LO.
pub open spec fn spec_divu(x: u32, y: u32) -> (u32, u32) {
    if y == 0 {
        (x, 0xFFFF_FFFFu32)
    } else {
        (x % y, x / y)
    }
}

/// HI and LO after a signed multiplication: the high and the low word of
/// the 64-bit product.
pub open spec fn spec_mult(x: u32, y: u32) -> (u32, u32) {
    let product = ((x as i32) * (y as i32)) as u64;
    ((product >> 32) as u32, product as u32)
}

/// HI and LO after an unsigned multiplication: the high and the low word
/// of the 64-bit product.
pub open spec fn spec_multu(x: u32, y: u32) -> (u32, u32) {
    let product = (x * y) as u64;
    ((product >> 32) as u32, product as u32)
}

/// The sum of `x` and `y` as signed words, or `None` where it does not fit.
pub open spec fn spec_add(x: u32, y: u32) -> Option<u32> {
    let sum = (x as i32) + (y as i32);
    if -0x8000_0000 <= sum <= 0x7FFF_FFFF {
        Some((sum as i32) as u32)
    } else {
        None
    }
}

/// The difference of `x` and `y` as signed words, or `None` where it does
/// not fit.
pub open spec fn spec_sub(x: u32, y: u32) -> Option<u32> {
    let difference = (x as i32) - (y as i32);
    if -0x8000_0000 <= difference <= 0x7FFF_FFFF {
        Some((difference as i32) as u32)
    } else {
        None
    }
}

/// 1 if `x` is less than `y` as signed words, else 0.
pub open spec fn spec_slt(x: u32, y: u32) -> u32 {
    if (x as i32) < (y as i32) {
        1
    } else {
        0
    }
}

/// 1 if `x` is less than `y` as unsigned words, else 0.
pub open spec fn spec_sltu(x: u32, y: u32) -> u32 {
    if x < y {
        1
    } else {
        0
    }
}

/// `x` shifted right by the low five bits of `shift`, with copies of the sign.
pub open spec fn spec_sra(x: u32, shift: u32) -> u32 {
    ((x as i32) >> (shift & 0x1F)) as u32
}

/// What LWL leaves in a register that holds `value`, for an address whose
/// low two bits are `low` and whose aligned word is `word`.
pub open spec fn spec_lwl(low: u32, value: u32, word: u32) -> u32 {
    if low == 0 {
        (value & 0x00FF_FFFF) | (word << 24)
    } else if low == 1 {
        (value & 0x0000_FFFF) | (word << 16)
    } else if low == 2 {
        (value & 0x0000_00FF) | (word << 8)
    } else {
        word
    }
}

/// What LWR leaves in a register that holds `value`, for an address whose
/// low two bits are `low` and whose aligned word is `word`.
pub open spec fn spec_lwr(low: u32, value: u32, word: u32) -> u32 {
    if low == 0 {
        word
    } else if low == 1 {
        (value & 0xFF00_0000) | (word >> 8)
    } else if low == 2 {
        (value & 0xFFFF_0000) | (word >> 16)
    } else {
        (value & 0xFFFF_FF00) | (word >> 24)
    }
}

/// What SWL leaves in the aligned word `word` when it stores the register
/// value `value` at an address whose low two bits are `low`.
pub open spec fn spec_swl(low: u32, word: u32, value: u32) -> u32 {
    if low == 0 {
        (word & 0xFFFF_FF00) | (value >> 24)
    } else if low == 1 {
        (word & 0xFFFF_0000) | (value >> 16)
    } else if low == 2 {
        (word & 0xFF00_0000) | (value >> 8)
    } else {
        value
    }
}

/// What SWR leaves in the aligned word `word` when it stores the register
/// value `value` at an address whose low two bits are `low`.
pub open spec fn spec_swr(low: u32, word: u32, value: u32) -> u32 {
    if low == 0 {
        value
    } else if low == 1 {
        (word & 0x0000_00FF) | (value << 8)
    } else if low == 2 {
        (word & 0x0000_FFFF) | (value << 16)
    } else {
        (word & 0x00FF_FFFF) | (value << 24)
    }
}

/// The word that starts `low` bytes into the aligned word `first` and runs
/// on into the aligned word `second` that follows it.
pub open spec fn unaligned_word(low: u32, first: u32, second: u32) -> u32 {
    if low == 0 {
        first
    } else if low == 1 {
        (first >> 8) | (second << 24)
    } else if low == 2 {
        (first >> 16) | (second << 16)
    } else {
        (first >> 24) | (second << 8)
    }
}

pub fn add(x: u32, y: u32) -> (r: Option<u32>)
    ensures
        r == spec_add(x, y),
{
    match (#[verifier::truncate] (x as i32)).checked_add(#[verifier::truncate] (y as i32)) {
        Some(sum) => Some(#[verifier::truncate] (sum as u32)),
        None => None,
    }
}

pub fn sub(x: u32, y: u32) -> (r: Option<u32>)
    ensures
        r == spec_sub(x, y),
{
    match (#[verifier::truncate] (x as i32)).checked_sub(#[verifier::truncate] (y as i32)) {
        Some(difference) => Some(#[verifier::truncate] (difference as u32)),
        None => None,
    }
}

pub fn slt(x: u32, y: u32) -> (r: u32)
    ensures
        r == spec_slt(x, y),
{
    if (#[verifier::truncate] (x as i32)) < (#[verifier::truncate] (y as i32)) {
        1
    } else {
        0
    }
}

pub fn sltu(x: u32, y: u32) -> (r: u32)
    ensures
        r == spec_sltu(x, y),
{
    if x < y {
        1
    } else {
        0
    }
}

/// Shift amounts of five bits are below 32.
pub proof fn lemma_shift_amount(shift: u32)
    by (bit_vector)
    ensures
        shift & 0x1F < 32,
        shift & 3 < 4,
{
}

pub fn sra(x: u32, shift: u32) -> (r: u32)
    ensures
        r == spec_sra(x, shift),
{
    proof {
        lemma_shift_amount(shift);
    }
    #[verifier::truncate]
    (((#[verifier::truncate] (x as i32)) >> (shift & 0x1F)) as u32)
}

pub fn mult(x: u32, y: u32) -> (r: (u32, u32))
    ensures
        r == spec_mult(x, y),
{
    let a = (#[verifier::truncate] (x as i32)) as i64;
    let b = (#[verifier::truncate] (y as i32)) as i64;
    assert(-0x8000_0000 * 0x8000_0000 <= a * b <= 0x8000_0000 * 0x8000_0000) by (nonlinear_arith)
        requires
            -0x8000_0000 <= a < 0x8000_0000,
            -0x8000_0000 <= b < 0x8000_0000,
    ;
    let product = #[verifier::truncate] ((a * b) as u64);
    (#[verifier::truncate] ((product >> 32) as u32), #[verifier::truncate] (product as u32))
}

pub fn multu(x: u32, y: u32) -> (r: (u32, u32))
    ensures
        r == spec_multu(x, y),
{
    let a = x as u64;
    let b = y as u64;
    assert(a * b <= 0xFFFF_FFFF * 0xFFFF_FFFF) by (nonlinear_arith)
        requires
            a <= 0xFFFF_FFFF,
            b <= 0xFFFF_FFFF,
    ;
    let product = a * b;
    (#[verifier::truncate] ((product >> 32) as u32), #[verifier::truncate] (product as u32))
}

pub fn div(x: u32, y: u32) -> (r: (u32, u32))
    ensures
        r == spec_div(x, y),
{
    let n = #[verifier::truncate] (x as i32);
    let d = #[verifier::truncate] (y as i32);
    if d == 0 {
        (
            x,
            if n < 0 {
                1
            } else {
                0xFFFF_FFFF
            },
        )
    } else if x == 0x8000_0000 && d == -1 {
        (0, 0x8000_0000)
    } else {
        // Rounded towards zero: divide the magnitudes, then put the signs back.
        let n_wide = n as i64;
        let d_wide = d as i64;
        let n_size = if n_wide < 0 {
            -n_wide
        } else {
            n_wide
        };
        let d_size = if d_wide < 0 {
            -d_wide
        } else {
            d_wide
        };
        let quotient = n_size / d_size;
        let remainder = n_size % d_size;
        let lo = if (n_wide < 0) == (d_wide < 0) {
            quotient
        } else {
            -quotient
        };
        let hi = if n_wide < 0 {
            -remainder
        } else {
            remainder
        };
        (#[verifier::truncate] (hi as u32), #[verifier::truncate] (lo as u32))
    }
}

pub fn divu(x: u32, y: u32) -> (r: (u32, u32))
    ensures
        r == spec_divu(x, y),
{
    if y == 0 {
        (x, 0xFFFF_FFFF)
    } else {
        (x % y, x / y)
    }
}

pub fn lwl(low: u32, value: u32, word: u32) -> (r: u32)
    ensures
        r == spec_lwl(low, value, word),
{
    if low == 0 {
        (value & 0x00FF_FFFF) | (word << 24)
    } else if low == 1 {
        (value & 0x0000_FFFF) | (word << 16)
    } else if low == 2 {
        (value & 0x0000_00FF) | (word << 8)
    } else {
        word
    }
}

pub fn lwr(low: u32, value: u32, word: u32) -> (r: u32)
    ensures
        r == spec_lwr(low, value, word),
{
    if low == 0 {
        word
    } else if low == 1 {
        (value & 0xFF00_0000) | (word >> 8)
    } else if low == 2 {
        (value & 0xFFFF_0000) | (word >> 16)
    } else {
        (value & 0xFFFF_FF00) | (word >> 24)
    }
}

pub fn swl(low: u32, word: u32, value: u32) -> (r: u32)
    ensures
        r == spec_swl(low, word, value),
{
    if low == 0 {
        (word & 0xFFFF_FF00) | (value >> 24)
    } else if low == 1 {
        (word & 0xFFFF_0000) | (value >> 16)
    } else if low == 2 {
        (word & 0xFF00_0000) | (value >> 8)
    } else {
        value
    }
}

pub fn swr(low: u32, word: u32, value: u32) -> (r: u32)
    ensures
        r == spec_swr(low, word, value),
{
    if low == 0 {
        value
    } else if low == 1 {
        (word & 0x0000_00FF) | (value << 8)
    } else if low == 2 {
        (word & 0x0000_FFFF) | (value << 16)
    } else {
        (word & 0x00FF_FFFF) | (value << 24)
    }
}

/// Unsigned addition and subtraction undo one another, and exclusive or
/// undoes itself.
pub proof fn lemma_inverse_pairs(x: u32, y: u32)
    ensures
        x.wrapping_sub(y).wrapping_add(y) == x,
        x.wrapping_add(y).wrapping_sub(y) == x,
        (x ^ y) ^ y == x,
{
    assert((x ^ y) ^ y == x) by (bit_vector);
}

/// A word read as a signed word and back is the same word, and the other
/// way round.
pub proof fn lemma_sign_casts(x: u32, s: i32)
    by (bit_vector)
    ensures
        ((x as i32) as u32) == x,
        ((s as u32) as i32) == s,
{
}

/// Where neither overflows, signed addition and subtraction undo one
/// another.
pub proof fn lemma_signed_inverse_pairs(x: u32, y: u32)
    ensures
        spec_sub(x, y) matches Some(d) ==> spec_add(d, y) == Some(x),
        spec_add(x, y) matches Some(s) ==> spec_sub(s, y) == Some(x),
{
    lemma_sign_casts(x, 0);
    let a = x as i32;
    let b = y as i32;
    if -0x8000_0000 <= a - b <= 0x7FFF_FFFF {
        lemma_sign_casts(0, (a - b) as i32);
    }
    if -0x8000_0000 <= a + b <= 0x7FFF_FFFF {
        lemma_sign_casts(0, (a + b) as i32);
    }
}

/// LWL at the last byte of a word that lies `low` bytes into an aligned
/// word, followed by LWR at its first byte, loads that word, whatever the
/// register held. `first` is the aligned word that holds the first byte,
/// `second` the one after it.
pub proof fn lemma_lwl_lwr(low: u32, value: u32, first: u32, second: u32)
    requires
        low < 4,
    ensures
        low == 0 ==> spec_lwr(0, spec_lwl(3, value, first), first) == unaligned_word(
            low,
            first,
            second,
        ),
        low != 0 ==> spec_lwr(low, spec_lwl((low - 1) as u32, value, second), first)
            == unaligned_word(low, first, second),
{
    assert((((value & 0x00FF_FFFF) | (second << 24)) & 0xFF00_0000 | (first >> 8) == (first >> 8)
        | (second << 24)) && (((value & 0x0000_FFFF) | (second << 16)) & 0xFFFF_0000 | (first
        >> 16) == (first >> 16) | (second << 16)) && (((value & 0x0000_00FF) | (second << 8))
        & 0xFFFF_FF00 | (first >> 24) == (first >> 24) | (second << 8))) by (bit_vector);
}

/// SWL at the last byte of a word that lies `low` bytes into an aligned
/// word, followed by SWR at its first byte, stores the register: the two
/// aligned words then hold `value` at that place.
pub proof fn lemma_swl_swr(low: u32, value: u32, first: u32, second: u32)
    requires
        low < 4,
    ensures
        low == 0 ==> spec_swr(0, spec_swl(3, first, value), value) == value,
        low != 0 ==> unaligned_word(
            low,
            spec_swr(low, first, value),
            spec_swl((low - 1) as u32, second, value),
        ) == value,
{
    assert(((((first & 0x0000_00FF) | (value << 8)) >> 8) | (((second & 0xFFFF_FF00) | (value
        >> 24)) << 24) == value) && ((((first & 0x0000_FFFF) | (value << 16)) >> 16) | (((second
        & 0xFFFF_0000) | (value >> 16)) << 16) == value) && ((((first & 0x00FF_FFFF) | (value
        << 24)) >> 24) | (((second & 0xFF00_0000) | (value >> 8)) << 8) == value))
        by (bit_vector);
}

} // verus!
