//! The trajectory population: two shared parameter sets and an ordered
//! sequence of independent trajectories.
//!
//! The parameters are immutable after construction and shared read-only by
//! every trajectory; construction rejects ill-formed parameters so the
//! numeric stepping never divides by zero or propagates NaN from a bad
//! configuration. The sequence keeps its order for the whole run: stepping
//! rewrites the trajectories in place and never reorders, adds or removes
//! one, which the mutable-access contract below pins down.

use vstd::prelude::*;

use crate::pendulum::{ConfigurationError, Pendulum};
use crate::trajectory::DoublePendulumConfiguration;

verus! {

/// A population of double pendulums sharing the two arm parameter sets.
#[derive(Clone, PartialEq, Debug)]
pub struct DoublePendulumCollection {
    pendulum_a: Pendulum,
    pendulum_b: Pendulum,
    pendulum_configurations: Vec<DoublePendulumConfiguration>,
}

impl DoublePendulumCollection {
    /// Arm A's shared parameters.
    pub closed spec fn spec_pendulum_a(self) -> Pendulum {
        self.pendulum_a
    }

    /// Arm B's shared parameters.
    pub closed spec fn spec_pendulum_b(self) -> Pendulum {
        self.pendulum_b
    }

    /// The ordered sequence of trajectory states.
    pub closed spec fn spec_configurations(self) -> Seq<DoublePendulumConfiguration> {
        self.pendulum_configurations@
    }

    /// Both shared parameter sets are well-formed.
    pub open spec fn valid(self) -> bool {
        self.spec_pendulum_a().valid() && self.spec_pendulum_b().valid()
    }

    /// Builds a population from explicit parameters and an explicit sequence
    /// of initial trajectory states, rejecting parameters whose length or
    /// mass is not a strictly positive finite value. Arm A's parameters are
    /// examined first.
    pub fn new(
        pendulum_a: Pendulum,
        pendulum_b: Pendulum,
        pendulum_configurations: Vec<DoublePendulumConfiguration>,
    ) -> (result: Result<DoublePendulumCollection, ConfigurationError>)
        ensures
            result is Ok <==> (pendulum_a.valid() && pendulum_b.valid()),
            result is Ok ==> {
                &&& result->Ok_0.spec_pendulum_a() == pendulum_a
                &&& result->Ok_0.spec_pendulum_b() == pendulum_b
                &&& result->Ok_0.spec_configurations() == pendulum_configurations@
                &&& result->Ok_0.valid()
            },
            !pendulum_a.valid() ==> result == Result::<
                DoublePendulumCollection,
                ConfigurationError,
            >::Err(pendulum_a.spec_error()),
            pendulum_a.valid() && !pendulum_b.valid() ==> result == Result::<
                DoublePendulumCollection,
                ConfigurationError,
            >::Err(pendulum_b.spec_error()),
    {
        match pendulum_a.check() {
            Err(e) => return Err(e),
            Ok(()) => {},
        }
        match pendulum_b.check() {
            Err(e) => return Err(e),
            Ok(()) => {},
        }
        Ok(DoublePendulumCollection { pendulum_a, pendulum_b, pendulum_configurations })
    }

    /// Arm A's shared parameters.
    pub fn pendulum_a(&self) -> (r: &Pendulum)
        ensures
            *r == self.spec_pendulum_a(),
    {
        &self.pendulum_a
    }

    /// Arm B's shared parameters.
    pub fn pendulum_b(&self) -> (r: &Pendulum)
        ensures
            *r == self.spec_pendulum_b(),
    {
        &self.pendulum_b
    }

    /// The ordered sequence of trajectory states, read-only.
    pub fn pendulum_configurations(&self) -> (r: &Vec<DoublePendulumConfiguration>)
        ensures
            r@ == self.spec_configurations(),
    {
        &self.pendulum_configurations
    }

    /// Write access to the trajectory states for the numeric stepping code,
    /// which rewrites each state in place. Whatever the borrower does, the
    /// shared parameters stay untouched and the sequence it hands back is the
    /// population's new sequence: stepping can change states, never the
    /// parameters.
    pub fn pendulum_configurations_mut(&mut self) -> (r: &mut Vec<DoublePendulumConfiguration>)
        ensures
            r@ == old(self).spec_configurations(),
            final(self).spec_configurations() == final(r)@,
            final(self).spec_pendulum_a() == old(self).spec_pendulum_a(),
            final(self).spec_pendulum_b() == old(self).spec_pendulum_b(),
    {
        &mut self.pendulum_configurations
    }
}

} // verus!
