//! Opacity values, held as the bit pattern of an IEEE-754 single-precision
//! number.
//!
//! A bit pattern has a sign bit, eight exponent bits and twenty-three fraction
//! bits.  Two facts about the encoding carry everything in this module: with the
//! sign bit cleared, a larger pattern stands for a larger number, and the
//! patterns above that of infinity stand for no number at all.

use vstd::prelude::*;

verus! {

/// The pattern of `+0.0`.
pub const ZERO: u32 = 0;

/// The pattern of `1.0`.
pub const ONE: u32 = 0x3F80_0000;

/// The pattern of `0.75`.
pub const THREE_QUARTERS: u32 = 0x3F40_0000;

/// The pattern of `-0.0`: the sign bit alone.
pub const SIGN_BIT: u32 = 0x8000_0000;

/// The pattern of positive infinity.
pub const INFINITY: u32 = 0x7F80_0000;

/// Whether the sign bit of `bits` is set.
pub open spec fn is_negative(bits: u32) -> bool {
    bits >= SIGN_BIT
}

/// The pattern with its sign bit cleared.
pub open spec fn magnitude(bits: u32) -> int {
    if is_negative(bits) {
        bits - SIGN_BIT
    } else {
        bits as int
    }
}

/// Whether `bits` stands for no number.
pub open spec fn is_nan(bits: u32) -> bool {
    magnitude(bits) > INFINITY
}

/// The place of a number on the number line: of two numbers the smaller has
/// the smaller rank, and both zeros have rank 0.
pub open spec fn rank(bits: u32) -> int {
    if is_negative(bits) {
        -magnitude(bits)
    } else {
        magnitude(bits)
    }
}

/// `a < b` as numbers; false when either is not a number.
pub open spec fn less(a: u32, b: u32) -> bool {
    !is_nan(a) && !is_nan(b) && rank(a) < rank(b)
}

/// `a == b` as numbers; false when either is not a number.
pub open spec fn same_number(a: u32, b: u32) -> bool {
    !is_nan(a) && !is_nan(b) && rank(a) == rank(b)
}

/// `0.0 <= bits <= 1.0` as numbers.
pub open spec fn in_unit_interval(bits: u32) -> bool {
    !is_nan(bits) && rank(ZERO) <= rank(bits) <= rank(ONE)
}

/// The place of a pattern in the total order of all patterns, in which
/// `-0.0` comes before `+0.0` and the patterns that are no number lie at the
/// two ends, by their sign.
pub open spec fn total_rank(bits: u32) -> int {
    if is_negative(bits) {
        -1 - magnitude(bits)
    } else {
        magnitude(bits)
    }
}

/// A stored opacity: a number of the unit interval with its sign bit clear.
pub open spec fn is_unit(bits: u32) -> bool {
    bits <= ONE
}

/// The pattern nearest to `bits` in the total order among those from `+0.0`
/// to `1.0`.
pub open spec fn clamped(bits: u32) -> u32 {
    if total_rank(bits) <= total_rank(ZERO) {
        ZERO
    } else if total_rank(bits) >= total_rank(ONE) {
        ONE
    } else {
        bits
    }
}

/// Clamps an opacity to the unit interval.
///
/// A number below zero becomes `0.0`, a number above one becomes `1.0`, and a
/// number in between is kept; `-0.0` becomes `+0.0`.  A pattern that is no
/// number goes to the end of the interval on the side of its sign.
pub fn clamp_unit(bits: u32) -> (r: u32)
    ensures
        r == clamped(bits),
        is_unit(r),
        in_unit_interval(r),
        less(bits, ZERO) ==> r == ZERO,
        less(ONE, bits) ==> r == ONE,
        in_unit_interval(bits) ==> same_number(r, bits),
        is_unit(bits) ==> r == bits,
{
    if bits >= SIGN_BIT {
        ZERO
    } else if bits >= ONE {
        ONE
    } else {
        bits
    }
}

} // verus!
