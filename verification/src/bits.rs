//! Small helpers for packing and unpacking register words.

use vstd::prelude::*;

verus! {

/// `1 << shift` if `set`, else 0.
pub open spec fn flag(set: bool, shift: u32) -> u32 {
    if set {
        1u32 << shift
    } else {
        0
    }
}

/// `1 << shift` if `set`, else 0.
pub fn flag_bit(set: bool, shift: u32) -> (r: u32)
    requires
        shift < 32,
    ensures
        r == flag(set, shift),
{
    if set {
        1u32 << shift
    } else {
        0
    }
}

} // verus!
