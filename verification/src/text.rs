//! Numbers as text.

use vstd::prelude::*;
use vstd::string::StringExecFns;

verus! {

/// The character of the hexadecimal digit `digit`, in upper case.
pub open spec fn spec_digit(digit: int) -> char {
    if digit == 0 {
        '0'
    } else if digit == 1 {
        '1'
    } else if digit == 2 {
        '2'
    } else if digit == 3 {
        '3'
    } else if digit == 4 {
        '4'
    } else if digit == 5 {
        '5'
    } else if digit == 6 {
        '6'
    } else if digit == 7 {
        '7'
    } else if digit == 8 {
        '8'
    } else if digit == 9 {
        '9'
    } else if digit == 10 {
        'A'
    } else if digit == 11 {
        'B'
    } else if digit == 12 {
        'C'
    } else if digit == 13 {
        'D'
    } else if digit == 14 {
        'E'
    } else {
        'F'
    }
}

/// `value` in hexadecimal, upper case, with zeros in front up to `width`
/// digits.
pub open spec fn hex_text(value: nat, width: nat) -> Seq<char>
    decreases value, width,
{
    if value < 16 && width <= 1 {
        seq![spec_digit(value as int)]
    } else {
        hex_text(
            value / 16,
            if width > 0 {
                (width - 1) as nat
            } else {
                0
            },
        ).push(spec_digit((value % 16) as int))
    }
}

/// `value` in decimal.
pub open spec fn decimal_text(value: nat) -> Seq<char>
    decreases value,
{
    if value < 10 {
        seq![spec_digit(value as int)]
    } else {
        decimal_text(value / 10).push(spec_digit((value % 10) as int))
    }
}

/// `value` in decimal, with a minus sign in front if it is negative.
pub open spec fn signed_text(value: int) -> Seq<char> {
    if value < 0 {
        seq!['-'] + decimal_text((-value) as nat)
    } else {
        decimal_text(value as nat)
    }
}

/// The digit `digit` as a string of one character.
pub fn digit_str(digit: u32) -> (r: &'static str)
    requires
        digit < 16,
    ensures
        r@ == seq![spec_digit(digit as int)],
{
    proof {
        reveal_strlit("0");
        reveal_strlit("1");
        reveal_strlit("2");
        reveal_strlit("3");
        reveal_strlit("4");
        reveal_strlit("5");
        reveal_strlit("6");
        reveal_strlit("7");
        reveal_strlit("8");
        reveal_strlit("9");
        reveal_strlit("A");
        reveal_strlit("B");
        reveal_strlit("C");
        reveal_strlit("D");
        reveal_strlit("E");
        reveal_strlit("F");
    }
    let r = if digit == 0 {
        "0"
    } else if digit == 1 {
        "1"
    } else if digit == 2 {
        "2"
    } else if digit == 3 {
        "3"
    } else if digit == 4 {
        "4"
    } else if digit == 5 {
        "5"
    } else if digit == 6 {
        "6"
    } else if digit == 7 {
        "7"
    } else if digit == 8 {
        "8"
    } else if digit == 9 {
        "9"
    } else if digit == 10 {
        "A"
    } else if digit == 11 {
        "B"
    } else if digit == 12 {
        "C"
    } else if digit == 13 {
        "D"
    } else if digit == 14 {
        "E"
    } else {
        "F"
    };
    assert(r@ =~= seq![spec_digit(digit as int)]);
    r
}

/// Appends `value` in hexadecimal, upper case, at least `width` digits wide.
pub fn push_hex(text: &mut String, value: u32, width: u32)
    ensures
        final(text)@ == old(text)@ + hex_text(value as nat, width as nat),
    decreases value, width,
{
    if value < 16 && width <= 1 {
        text.append(digit_str(value));
        assert(text@ =~= old(text)@ + hex_text(value as nat, width as nat));
    } else {
        push_hex(
            text,
            value / 16,
            if width > 0 {
                width - 1
            } else {
                0
            },
        );
        text.append(digit_str(value % 16));
        assert(text@ =~= old(text)@ + hex_text(value as nat, width as nat));
    }
}

/// Appends `value` in decimal.
pub fn push_decimal(text: &mut String, value: u32)
    ensures
        final(text)@ == old(text)@ + decimal_text(value as nat),
    decreases value,
{
    if value < 10 {
        text.append(digit_str(value));
        assert(text@ =~= old(text)@ + decimal_text(value as nat));
    } else {
        push_decimal(text, value / 10);
        text.append(digit_str(value % 10));
        assert(text@ =~= old(text)@ + decimal_text(value as nat));
    }
}

/// Appends `value` in decimal, with its sign if it is negative.
pub fn push_signed(text: &mut String, value: i32)
    ensures
        final(text)@ == old(text)@ + signed_text(value as int),
{
    if value < 0 {
        proof {
            reveal_strlit("-");
        }
        text.append("-");
        assert("-"@ =~= seq!['-']);
        let size = (-(value as i64)) as u32;
        push_decimal(text, size);
        assert(text@ =~= old(text)@ + signed_text(value as int));
    } else {
        push_decimal(text, value as u32);
    }
}

} // verus!
