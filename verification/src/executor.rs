//! Timed executor: runs one operation invocation under a deadline.
//!
//! The race itself (start the operation, race it against the timeout) is the
//! host runtime's job; what is verified here is its decision logic over a
//! model of the operation's behaviour: which outcome the race produces and how
//! much time the invocation occupies the runner.

use vstd::prelude::*;
use crate::outcome::{classify, spec_classify, Outcome, RaceResult};

verus! {

/// How one invocation of a task's operation behaves, as the timed executor
/// observes it: either it completes after some duration with a result, or it
/// never completes. Durations are in the same (arbitrary) time unit as
/// intervals and timeouts.
#[derive(Debug)]
pub enum OpBehavior {
    /// The operation completes `after` time units after it starts, reporting
    /// `result`.
    Completes { after: u64, result: Result<(), String> },
    /// The operation never completes on its own.
    NeverCompletes,
}

/// What one run of the timed executor yields: the classified outcome, and the
/// time the invocation occupied the runner. A timed-out invocation occupies
/// the runner for exactly the timeout: the operation is abandoned at the
/// deadline (not killed; see the crate doc).
#[derive(Debug)]
pub struct Execution {
    pub outcome: Outcome,
    pub elapsed: u64,
}

/// The outcome `execute` classifies: the completion wins only if it is
/// observed strictly before the deadline fires; ties go to the deadline.
pub open spec fn spec_execute_outcome(b: OpBehavior, timeout: u64) -> Outcome {
    match b {
        OpBehavior::Completes { after, result } => if after < timeout {
            spec_classify(RaceResult::Completed(result))
        } else {
            Outcome::TimedOut
        },
        OpBehavior::NeverCompletes => Outcome::TimedOut,
    }
}

/// How long the invocation occupies the runner: until the completion, or
/// until the deadline, whichever resolves first.
pub open spec fn spec_execute_elapsed(b: OpBehavior, timeout: u64) -> u64 {
    match b {
        OpBehavior::Completes { after, result } => if after < timeout {
            after
        } else {
            timeout
        },
        OpBehavior::NeverCompletes => timeout,
    }
}

/// Run one invocation under a deadline, over the model of the operation's
/// behaviour: resolve the race, then feed what it resolved to through the
/// classifier. Every path returns an `Execution`; an operation that never
/// completes is classified `TimedOut` after exactly `timeout` has elapsed,
/// not before and not after.
pub fn execute(b: &OpBehavior, timeout: u64) -> (e: Execution)
    requires
        timeout > 0,
    ensures
        e.outcome == spec_execute_outcome(*b, timeout),
        e.elapsed == spec_execute_elapsed(*b, timeout),
        e.elapsed <= timeout,
        e.outcome is TimedOut <==> e.elapsed == timeout && !(*b matches OpBehavior::Completes {
            after,
            result,
        } && after < timeout),
        *b is NeverCompletes ==> e.outcome is TimedOut && e.elapsed == timeout,
{
    match b {
        OpBehavior::Completes { after, result } => {
            if *after < timeout {
                let race = RaceResult::Completed(
                    match result {
                        Ok(u) => Ok(*u),
                        Err(detail) => Err(detail.clone()),
                    },
                );
                Execution { outcome: classify(race), elapsed: *after }
            } else {
                Execution { outcome: classify(RaceResult::DeadlineElapsed), elapsed: timeout }
            }
        },
        OpBehavior::NeverCompletes => {
            Execution { outcome: classify(RaceResult::DeadlineElapsed), elapsed: timeout }
        },
    }
}

} // verus!
