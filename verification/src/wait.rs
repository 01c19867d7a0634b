//! The bounded busy-wait policy.
//!
//! The panel raises its busy line while it works; the driver must poll the
//! line until it reports ready, re-issuing the status query before every
//! poll and sleeping one interval between polls. An unbounded poll loop
//! would let a stuck panel hold the exclusive handle forever, so the wait
//! is bounded: after `budget` polls without a ready signal it fails with
//! `ProtocolTimeout`. The per-poll decision is [`wait_step`]; the runner
//! that owns the physical line calls it after every poll. [`wait_ready_sim`]
//! is the same policy run over a given sequence of line levels, verified
//! for every sequence and every budget.

use vstd::prelude::*;

use crate::DriverError;

verus! {

/// Milliseconds between two busy-line polls.
pub const POLL_INTERVAL_MS: u64 = 200;

/// Default poll budget: 150 polls of 200 ms each, a 30 s deadline.
pub const DEFAULT_POLL_BUDGET: usize = 150;

/// The decision after one busy-line poll.
#[derive(Clone, Copy, Debug, PartialEq, Eq, Structural)]
pub enum WaitStep {
    /// The line reports ready; the wait is over.
    Ready,
    /// Not ready; sleep one poll interval, re-issue the status query, and
    /// poll again.
    RetryAfterDelay,
    /// Not ready and the poll budget is exhausted; the wait fails with
    /// `ProtocolTimeout`.
    TimedOut,
}

/// The level the busy line shows at poll `i` of a recorded run: the
/// recorded level while the record lasts, and never-ready beyond it.
pub open spec fn line_level(readings: Seq<bool>, i: int) -> bool {
    0 <= i < readings.len() && readings[i]
}

/// Decides what follows one poll of the busy line. `polls_used` counts the
/// polls made so far, this one not included.
pub fn wait_step(line_ready: bool, polls_used: usize, budget: usize) -> (r: WaitStep)
    requires
        polls_used < budget,
    ensures
        line_ready ==> r == WaitStep::Ready,
        !line_ready && polls_used + 1 < budget ==> r == WaitStep::RetryAfterDelay,
        !line_ready && polls_used + 1 == budget ==> r == WaitStep::TimedOut,
{
    if line_ready {
        WaitStep::Ready
    } else if polls_used + 1 < budget {
        WaitStep::RetryAfterDelay
    } else {
        WaitStep::TimedOut
    }
}

/// Runs the bounded wait over a recorded sequence of busy-line levels.
///
/// Succeeds exactly at the first ready poll — after it, never before it —
/// and fails with `ProtocolTimeout` exactly when no poll within the budget
/// finds the line ready.
pub fn wait_ready_sim(readings: &Vec<bool>, budget: usize) -> (r: Result<usize, DriverError>)
    ensures
        match r {
            Ok(polls) => 1 <= polls <= budget && line_level(readings@, polls - 1) && (forall|j: int|
                0 <= j < polls - 1 ==> !line_level(readings@, j)),
            Err(e) => e == DriverError::ProtocolTimeout && (forall|j: int|
                0 <= j < budget ==> !line_level(readings@, j)),
        },
{
    let mut i: usize = 0;
    while i < budget
        invariant
            i <= budget,
            forall|j: int| 0 <= j < i ==> !line_level(readings@, j),
        decreases budget - i,
    {
        let ready: bool = if i < readings.len() {
            readings[i]
        } else {
            false
        };
        proof {
            assert(ready == line_level(readings@, i as int));
        }
        match wait_step(ready, i, budget) {
            WaitStep::Ready => {
                return Ok(i + 1);
            },
            WaitStep::RetryAfterDelay => {},
            WaitStep::TimedOut => {
                return Err(DriverError::ProtocolTimeout);
            },
        }
        i = i + 1;
    }
    Err(DriverError::ProtocolTimeout)
}

} // verus!
