//! Verified core of a double-pendulum sensitivity simulation.
//!
//! A population of double pendulums shares two immutable sets of physical
//! parameters and steps many slightly perturbed trajectories side by side.
//! This crate holds the verified part of that system: the data model of
//! parameters, arm states, trajectories and the population, the construction
//! rules that reject ill-formed physics parameters, the bit-pattern
//! classification of the binary64 scalars the model carries, and the integer
//! bookkeeping of the stepping loop. The double-precision arithmetic itself
//! (the equations of motion, the integrator, angle normalization, the
//! divergence metric) cannot stand in verified code and lives with the
//! unverified callers, which read and write the model through the contracts
//! here.

pub mod binary64;
pub mod collection;
pub mod pendulum;
pub mod render;
pub mod schedule;
pub mod trajectory;
