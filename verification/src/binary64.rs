//! Bit-pattern model of IEEE 754 binary64 values.
//!
//! The simulation's scalar quantities (angles, angular velocities, rod
//! lengths, masses) are double-precision values. Verified code carries each
//! one as its 64-bit interchange encoding: sign bit, 11 exponent bits,
//! 52 fraction bits. The predicates here classify a value purely from that
//! encoding, which the IEEE 754 standard fixes exactly:
//! the exponent field is all ones for an infinity (fraction zero) or a NaN
//! (fraction nonzero), and for every other pattern the value is finite, with
//! the sign bit giving its sign and a zero magnitude giving zero.

use vstd::prelude::*;

verus! {

/// Mask of the 11-bit exponent field.
pub const EXPONENT_MASK: u64 = 0x7FF0_0000_0000_0000;

/// Mask of the sign bit.
pub const SIGN_MASK: u64 = 0x8000_0000_0000_0000;

/// Mask of everything but the sign bit: the magnitude of the value.
pub const MAGNITUDE_MASK: u64 = 0x7FFF_FFFF_FFFF_FFFF;

/// Bit pattern of the largest finite binary64 value.
pub const MAX_FINITE_BITS: u64 = 0x7FEF_FFFF_FFFF_FFFF;

/// Bit pattern of pi, rounded to nearest as binary64.
pub const PI_BITS: u64 = 0x4009_21FB_5444_2D18;

/// Bit pattern of 1.0.
pub const ONE_BITS: u64 = 0x3FF0_0000_0000_0000;

/// The pattern encodes a finite value: exponent not all ones (an exponent of
/// all ones encodes an infinity or a NaN).
pub open spec fn is_finite(bits: u64) -> bool {
    (bits & EXPONENT_MASK) != EXPONENT_MASK
}

/// The sign bit is set (the value is negative, a negative zero, or a NaN
/// whose sign bit is set).
pub open spec fn is_sign_negative(bits: u64) -> bool {
    (bits & SIGN_MASK) != 0
}

/// The pattern encodes a zero of either sign.
pub open spec fn is_zero(bits: u64) -> bool {
    (bits & MAGNITUDE_MASK) == 0
}

/// The pattern encodes a strictly positive finite value.
pub open spec fn is_strictly_positive(bits: u64) -> bool {
    is_finite(bits) && !is_sign_negative(bits) && !is_zero(bits)
}

/// The strictly positive finite patterns are exactly the integers from 1 to
/// the largest finite pattern: the sign bit clear leaves patterns up to the
/// positive infinity `0x7FF0_0000_0000_0000`, zero is the pattern 0, and the
/// finite ones stop just below the infinity.
pub proof fn lemma_strictly_positive_range(bits: u64)
    ensures
        is_strictly_positive(bits) <==> (1 <= bits && bits <= MAX_FINITE_BITS),
{
    assert((((bits & 0x7FF0_0000_0000_0000u64) != 0x7FF0_0000_0000_0000u64
        && (bits & 0x8000_0000_0000_0000u64) == 0 && (bits & 0x7FFF_FFFF_FFFF_FFFFu64) != 0)
        <==> (1u64 <= bits && bits <= 0x7FEF_FFFF_FFFF_FFFFu64))) by (bit_vector);
}

/// Decides whether a pattern encodes a strictly positive finite value, the
/// well-formedness demanded of a rod length or a point mass.
pub fn check_strictly_positive(bits: u64) -> (r: bool)
    ensures
        r == is_strictly_positive(bits),
{
    proof {
        lemma_strictly_positive_range(bits);
    }
    1 <= bits && bits <= MAX_FINITE_BITS
}

/// Decides whether a pattern encodes a finite value.
pub fn check_finite(bits: u64) -> (r: bool)
    ensures
        r == is_finite(bits),
{
    (bits & EXPONENT_MASK) != EXPONENT_MASK
}

/// The pattern encodes a value in the closed unit interval. For patterns with
/// the sign bit clear, value order and pattern order agree and NaN and
/// infinity patterns lie above every finite one, so those in the interval are
/// exactly the patterns up to 1.0's; the only other member is negative zero.
pub open spec fn is_in_unit_interval(bits: u64) -> bool {
    bits <= ONE_BITS || bits == SIGN_MASK
}

/// Decides whether a pattern encodes a value in the closed unit interval.
pub fn check_in_unit_interval(bits: u64) -> (r: bool)
    ensures
        r == is_in_unit_interval(bits),
{
    bits <= ONE_BITS || bits == SIGN_MASK
}

/// The pattern of the value's absolute value. IEEE 754 defines abs as a
/// sign-bit operation: the result is the operand with the sign bit cleared,
/// for NaNs as for every other value.
pub open spec fn spec_abs_bits(bits: u64) -> u64 {
    bits & MAGNITUDE_MASK
}

/// Clears the sign bit: the absolute value of the encoded value.
pub fn abs_bits(bits: u64) -> (r: u64)
    ensures
        r == spec_abs_bits(bits),
        is_finite(bits) ==> is_finite(r),
{
    proof {
        assert((bits & 0x7FF0_0000_0000_0000u64) != 0x7FF0_0000_0000_0000u64 ==> ((bits
            & 0x7FFF_FFFF_FFFF_FFFFu64) & 0x7FF0_0000_0000_0000u64)
            != 0x7FF0_0000_0000_0000u64) by (bit_vector);
    }
    bits & MAGNITUDE_MASK
}

/// Every unit-interval value is finite: the patterns up to 1.0's stay below
/// every all-ones exponent field, and negative zero's exponent field is zero.
pub proof fn lemma_unit_interval_is_finite(bits: u64)
    ensures
        is_in_unit_interval(bits) ==> is_finite(bits),
{
    assert((bits <= 0x3FF0_0000_0000_0000u64 || bits == 0x8000_0000_0000_0000u64) ==> (bits
        & 0x7FF0_0000_0000_0000u64) != 0x7FF0_0000_0000_0000u64) by (bit_vector);
}

} // verus!
