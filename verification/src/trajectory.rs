//! Complete instantaneous state of one simulated double pendulum.
//!
//! Arm A's pivot is fixed at the origin; arm B's pivot is the free end of
//! arm A. A trajectory is mutated only by the integration step, which the
//! unverified numeric code performs; the queries here let that code and the
//! tests examine a state without touching it.

use vstd::prelude::*;

use crate::binary64::{
    check_finite, check_in_unit_interval, is_finite, is_in_unit_interval, MAGNITUDE_MASK, PI_BITS,
};
use crate::pendulum::PendulumConfiguration;

verus! {

/// An internal-invariant violation: a quantity that valid inputs can never
/// produce, surfaced as a recoverable error rather than an abort.
#[derive(Copy, Clone, PartialEq, Eq, Structural, Debug)]
pub enum InvariantError {
    /// A per-arm normalized angle distance fell outside the unit interval.
    DivergenceFactorOutOfRange,
}

/// Admits the two per-arm normalized angle distances into the divergence
/// metric. Each one is an absolute normalized angle difference divided by pi,
/// so each must encode a value in the closed unit interval; anything else —
/// rounding pushing a ratio past one, or a NaN from an upstream fault — is an
/// internal-invariant violation, and the product of the two ratios must not
/// be built from it.
pub fn check_divergence_factors(norm_a: u64, norm_b: u64) -> (result: Result<(), InvariantError>)
    ensures
        result is Ok <==> (is_in_unit_interval(norm_a) && is_in_unit_interval(norm_b)),
        result is Err ==> result == Result::<(), InvariantError>::Err(
            InvariantError::DivergenceFactorOutOfRange,
        ),
{
    if check_in_unit_interval(norm_a) && check_in_unit_interval(norm_b) {
        Ok(())
    } else {
        Err(InvariantError::DivergenceFactorOutOfRange)
    }
}

/// A binary64 pattern whose value lies in the canonical angle range:
/// finite with magnitude at most pi. For patterns that are not NaN, the
/// magnitude field orders exactly as the encoded magnitudes do, and the NaN
/// and infinity patterns have magnitude fields above every finite one, so the
/// single comparison against pi's pattern decides the range.
pub open spec fn is_canonical_angle(bits: u64) -> bool {
    (bits & MAGNITUDE_MASK) <= PI_BITS
}

/// Every canonical angle is finite: a magnitude bounded by pi's pattern never
/// reaches the all-ones exponent field of an infinity or a NaN.
pub proof fn lemma_canonical_angle_is_finite(bits: u64)
    ensures
        is_canonical_angle(bits) ==> is_finite(bits),
{
    assert(((bits & 0x7FFF_FFFF_FFFF_FFFFu64) <= 0x4009_21FB_5444_2D18u64) ==> (bits
        & 0x7FF0_0000_0000_0000u64) != 0x7FF0_0000_0000_0000u64) by (bit_vector);
}

/// Decides whether a pattern encodes an angle in the canonical range.
pub fn check_canonical_angle(bits: u64) -> (r: bool)
    ensures
        r == is_canonical_angle(bits),
{
    (bits & MAGNITUDE_MASK) <= PI_BITS
}

/// The state of one double pendulum: the configurations of both arms.
#[derive(Copy, Clone, PartialEq, Eq, Structural, Debug)]
pub struct DoublePendulumConfiguration {
    a: PendulumConfiguration,
    b: PendulumConfiguration,
}

impl DoublePendulumConfiguration {
    /// Arm A's configuration.
    pub closed spec fn spec_a_configuration(self) -> PendulumConfiguration {
        self.a
    }

    /// Arm B's configuration.
    pub closed spec fn spec_b_configuration(self) -> PendulumConfiguration {
        self.b
    }

    /// Pairs the two arm states into one trajectory state.
    pub fn new(a: PendulumConfiguration, b: PendulumConfiguration) -> (result:
        DoublePendulumConfiguration)
        ensures
            result.spec_a_configuration() == a,
            result.spec_b_configuration() == b,
    {
        DoublePendulumConfiguration { a, b }
    }

    /// Arm A's configuration.
    pub fn a_configuration(&self) -> (r: PendulumConfiguration)
        ensures
            r == self.spec_a_configuration(),
    {
        self.a
    }

    /// Arm B's configuration.
    pub fn b_configuration(&self) -> (r: PendulumConfiguration)
        ensures
            r == self.spec_b_configuration(),
    {
        self.b
    }

    /// All four scalars of the state encode finite values: the integrator has
    /// not diverged into an infinity or a NaN.
    pub open spec fn spec_is_finite_state(self) -> bool {
        &&& is_finite(self.spec_a_configuration().spec_angle())
        &&& is_finite(self.spec_a_configuration().spec_angular_velocity())
        &&& is_finite(self.spec_b_configuration().spec_angle())
        &&& is_finite(self.spec_b_configuration().spec_angular_velocity())
    }

    /// Decides whether every scalar of the state is finite.
    pub fn is_finite_state(&self) -> (r: bool)
        ensures
            r == self.spec_is_finite_state(),
    {
        check_finite(self.a.angle()) && check_finite(self.a.angular_velocity()) && check_finite(
            self.b.angle(),
        ) && check_finite(self.b.angular_velocity())
    }

    /// Both angles lie in the canonical range, as they must after every
    /// integration step has normalized them.
    pub open spec fn spec_angles_canonical(self) -> bool {
        &&& is_canonical_angle(self.spec_a_configuration().spec_angle())
        &&& is_canonical_angle(self.spec_b_configuration().spec_angle())
    }

    /// Decides whether both angles lie in the canonical range.
    pub fn angles_canonical(&self) -> (r: bool)
        ensures
            r == self.spec_angles_canonical(),
    {
        check_canonical_angle(self.a.angle()) && check_canonical_angle(self.b.angle())
    }
}

} // verus!
