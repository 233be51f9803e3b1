//! Outcome classifier: categorizes the result of one operation execution into
//! a closed set of outcomes.

use vstd::prelude::*;

verus! {

/// The classified result of one invocation of a task's operation.
///
/// A value of this type is produced once per invocation and consumed
/// immediately by diagnostics; it is never persisted.
#[derive(Debug, Clone, PartialEq, Eq)]
pub enum Outcome {
    /// The operation completed and reported success.
    Success,
    /// The operation completed but reported failure; the detail is kept for
    /// diagnostics.
    ApplicationError(String),
    /// The operation did not complete within its configured deadline. The
    /// abandoned operation may still run in the background; its eventual
    /// result is discarded.
    TimedOut,
}

/// What the race between one operation invocation and its deadline resolved
/// to. The deadline mechanism is the sole arbiter: `Completed` may only be
/// built for a completion that was observed strictly before the deadline
/// fired; a tie goes to the deadline.
#[derive(Debug)]
pub enum RaceResult {
    /// The operation finished, with its own result, before the deadline fired.
    Completed(Result<(), String>),
    /// The deadline fired before any completion was observed.
    DeadlineElapsed,
}

/// How `classify` maps a race result to an outcome.
pub open spec fn spec_classify(race: RaceResult) -> Outcome {
    match race {
        RaceResult::Completed(Ok(())) => Outcome::Success,
        RaceResult::Completed(Err(detail)) => Outcome::ApplicationError(detail),
        RaceResult::DeadlineElapsed => Outcome::TimedOut,
    }
}

/// Categorize the result of one operation execution. Pure: no side effects,
/// no I/O; exactly one outcome per race result.
pub fn classify(race: RaceResult) -> (outcome: Outcome)
    ensures
        outcome == spec_classify(race),
        outcome is TimedOut <==> race is DeadlineElapsed,
{
    match race {
        RaceResult::Completed(Ok(())) => Outcome::Success,
        RaceResult::Completed(Err(detail)) => Outcome::ApplicationError(detail),
        RaceResult::DeadlineElapsed => Outcome::TimedOut,
    }
}

} // verus!
