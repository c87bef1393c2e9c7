//! The packet-drop rate of a drone and the draw that is held against it.
//!
//! A rate is a probability between zero and one, held as the bit pattern of
//! a single-precision binary number. Among the patterns of the numbers from
//! zero up to positive infinity the order of the patterns, read as unsigned
//! integers, is the order of the numbers. A draw from the open unit interval
//! is held in the same way, so that a draw lies below a rate exactly when
//! its pattern lies below the pattern of the rate.

use vstd::prelude::*;

verus! {

/// Bit pattern of the probability one.
pub const RATE_ONE: u32 = 0x3F80_0000;

/// Bit pattern of positive infinity, the largest pattern of a number that is
/// not negative.
pub const POSITIVE_INFINITY: u32 = 0x7F80_0000;

/// Bit pattern of negative zero, the one pattern with the sign bit set whose
/// number lies between zero and one.
pub const NEGATIVE_ZERO: u32 = 0x8000_0000;

/// Whether `bits` is the pattern of a number from zero to one.
pub open spec fn is_probability(bits: u32) -> bool {
    bits <= RATE_ONE || bits == NEGATIVE_ZERO
}

/// The rate that stands for `bits`: the number itself where it lies between
/// zero and one, one for what lies above, zero for what lies below and for
/// what is no number at all.
pub open spec fn clamped(bits: u32) -> u32 {
    if bits <= RATE_ONE {
        bits
    } else if bits <= POSITIVE_INFINITY {
        RATE_ONE
    } else {
        0
    }
}

/// Whether a fragment is dropped: the draw lies below the rate.
pub open spec fn drops(rate: u32, draw: u32) -> bool {
    draw < rate
}

/// Tells whether `bits` is the pattern of a number from zero to one.
pub fn check_probability(bits: u32) -> (ok: bool)
    ensures
        ok == is_probability(bits),
{
    bits <= RATE_ONE || bits == NEGATIVE_ZERO
}

/// Brings any pattern into the range of rates.
pub fn clamp(bits: u32) -> (rate: u32)
    ensures
        rate == clamped(bits),
        rate <= RATE_ONE,
{
    if bits <= RATE_ONE {
        bits
    } else if bits <= POSITIVE_INFINITY {
        RATE_ONE
    } else {
        0
    }
}

} // verus!
