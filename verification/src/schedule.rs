//! Integer bookkeeping of the stepping loop.
//!
//! The loop around the simulation decides, once per rendered frame, how much
//! simulated time the next batch may cover, how long to sleep after it, and
//! how many integration steps have run in total. Those decisions are plain
//! integer arithmetic on nanosecond counts and step counts and are verified
//! here; performing the sleep and measuring the clock stay with the caller.

use vstd::prelude::*;

verus! {

/// The simulated time of the next batch: the time elapsed since the last
/// batch, capped at the target step so a stall never produces one huge,
/// numerically unstable step.
pub fn clamp_step_nanos(elapsed_nanos: u64, target_nanos: u64) -> (r: u64)
    ensures
        r == if elapsed_nanos <= target_nanos {
            elapsed_nanos
        } else {
            target_nanos
        },
{
    if elapsed_nanos <= target_nanos {
        elapsed_nanos
    } else {
        target_nanos
    }
}

/// How long to sleep after a batch: the simulated time the batch covered,
/// less the time the computation itself took, saturating at zero when the
/// computation ran longer than the simulated time.
pub fn sleep_budget_nanos(target_nanos: u64, steps_per_render: u32, calc_nanos: u64) -> (r: u64)
    requires
        target_nanos * steps_per_render <= u64::MAX,
    ensures
        r == if target_nanos * steps_per_render >= calc_nanos {
            target_nanos * steps_per_render - calc_nanos
        } else {
            0
        },
{
    let budget: u64 = target_nanos * (steps_per_render as u64);
    if budget >= calc_nanos {
        budget - calc_nanos
    } else {
        0
    }
}

/// Total integration steps performed after a number of rendered frames, each
/// frame covering the same number of steps.
pub fn total_step_count(render_iterations: u32, steps_per_render: u32) -> (r: u64)
    ensures
        r == render_iterations * steps_per_render,
{
    let wide_iterations: u64 = render_iterations as u64;
    let wide_steps: u64 = steps_per_render as u64;
    proof {
        assert(wide_iterations * wide_steps <= 0xFFFF_FFFFu64 * 0xFFFF_FFFFu64)
            by (nonlinear_arith)
            requires
                wide_iterations <= 0xFFFF_FFFFu64,
                wide_steps <= 0xFFFF_FFFFu64,
        ;
    }
    wide_iterations * wide_steps
}

} // verus!
