//! Physical parameters and dynamic state of one double pendulum.
//!
//! Scalars are carried as binary64 bit patterns (see `binary64`). The
//! equations of motion divide by the rod length and by mass-dependent
//! denominators, so a `Pendulum` is only well-formed when both its length and
//! its mass encode strictly positive finite values; construction rejects
//! anything else as a configuration error instead of letting NaN propagate
//! through the integration later.

use vstd::prelude::*;

use crate::binary64::is_strictly_positive;

verus! {

/// A configuration error: a physical parameter that the equations of motion
/// cannot accept.
#[derive(Copy, Clone, PartialEq, Eq, Structural, Debug)]
pub enum ConfigurationError {
    /// The rod length does not encode a strictly positive finite value.
    NonPositiveLength,
    /// The point mass does not encode a strictly positive finite value.
    NonPositiveMass,
}

/// Immutable physical description of one arm: rod length and point mass,
/// both as binary64 bit patterns.
#[derive(Copy, Clone, PartialEq, Eq, Structural, Debug)]
pub struct Pendulum {
    length: u64,
    mass: u64,
}

impl Pendulum {
    /// The rod length's bit pattern.
    pub closed spec fn spec_length(self) -> u64 {
        self.length
    }

    /// The point mass's bit pattern.
    pub closed spec fn spec_mass(self) -> u64 {
        self.mass
    }

    /// Both parameters encode strictly positive finite values, so every
    /// division in the equations of motion is by a nonzero finite quantity.
    pub open spec fn valid(self) -> bool {
        is_strictly_positive(self.spec_length()) && is_strictly_positive(self.spec_mass())
    }

    /// Builds the parameters of one arm, rejecting a length or mass that is
    /// not a strictly positive finite value. The length is examined first.
    pub fn new(length: u64, mass: u64) -> (result: Result<Pendulum, ConfigurationError>)
        ensures
            result is Ok <==> (is_strictly_positive(length) && is_strictly_positive(mass)),
            result is Ok ==> result->Ok_0.spec_length() == length && result->Ok_0.spec_mass()
                == mass && result->Ok_0.valid(),
            !is_strictly_positive(length) ==> result == Result::<
                Pendulum,
                ConfigurationError,
            >::Err(ConfigurationError::NonPositiveLength),
            is_strictly_positive(length) && !is_strictly_positive(mass) ==> result == Result::<
                Pendulum,
                ConfigurationError,
            >::Err(ConfigurationError::NonPositiveMass),
    {
        if !crate::binary64::check_strictly_positive(length) {
            Err(ConfigurationError::NonPositiveLength)
        } else if !crate::binary64::check_strictly_positive(mass) {
            Err(ConfigurationError::NonPositiveMass)
        } else {
            Ok(Pendulum { length, mass })
        }
    }

    /// The configuration error a validity check of these parameters reports:
    /// the length's fault first, otherwise the mass's.
    pub open spec fn spec_error(self) -> ConfigurationError {
        if !is_strictly_positive(self.spec_length()) {
            ConfigurationError::NonPositiveLength
        } else {
            ConfigurationError::NonPositiveMass
        }
    }

    /// Re-examines already built parameters, reporting the same configuration
    /// error construction would.
    pub fn check(&self) -> (result: Result<(), ConfigurationError>)
        ensures
            result is Ok <==> self.valid(),
            !self.valid() ==> result == Result::<(), ConfigurationError>::Err(self.spec_error()),
    {
        if !crate::binary64::check_strictly_positive(self.length) {
            Err(ConfigurationError::NonPositiveLength)
        } else if !crate::binary64::check_strictly_positive(self.mass) {
            Err(ConfigurationError::NonPositiveMass)
        } else {
            Ok(())
        }
    }

    /// The rod length's bit pattern.
    pub fn length(&self) -> (r: u64)
        ensures
            r == self.spec_length(),
    {
        self.length
    }

    /// The point mass's bit pattern.
    pub fn mass(&self) -> (r: u64)
        ensures
            r == self.spec_mass(),
    {
        self.mass
    }
}

/// Dynamic state of one arm: angle and angular velocity, in radians and
/// radians per unit time, as binary64 bit patterns.
#[derive(Copy, Clone, PartialEq, Eq, Structural, Debug)]
pub struct PendulumConfiguration {
    angle: u64,
    angular_velocity: u64,
}

impl PendulumConfiguration {
    /// The angle's bit pattern.
    pub closed spec fn spec_angle(self) -> u64 {
        self.angle
    }

    /// The angular velocity's bit pattern.
    pub closed spec fn spec_angular_velocity(self) -> u64 {
        self.angular_velocity
    }

    /// Builds one arm's state from an angle and an angular velocity.
    pub fn new(angle: u64, angular_velocity: u64) -> (result: PendulumConfiguration)
        ensures
            result.spec_angle() == angle,
            result.spec_angular_velocity() == angular_velocity,
    {
        PendulumConfiguration { angle, angular_velocity }
    }

    /// The angle's bit pattern.
    pub fn angle(&self) -> (r: u64)
        ensures
            r == self.spec_angle(),
    {
        self.angle
    }

    /// The angular velocity's bit pattern.
    pub fn angular_velocity(&self) -> (r: u64)
        ensures
            r == self.spec_angular_velocity(),
    {
        self.angular_velocity
    }
}

} // verus!
