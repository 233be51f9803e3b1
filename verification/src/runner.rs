//! Periodic runner: the state machine that drives one task's recurring
//! schedule.
//!
//! The host runtime owns the loop (the interval timer, the shutdown
//! subscription, the race between them); every decision the loop takes goes
//! through [`runner_step`], so the transition structure is verified here. The
//! timing of a whole schedule is modelled and verified in [`crate::schedule`].

use vstd::prelude::*;
use vstd::string::StrSliceExecFns;
use vstd::string::StringExecFns;
use crate::outcome::Outcome;

verus! {

/// The states of one periodic runner.
#[derive(Debug, Clone, Copy, PartialEq, Eq, Structural)]
pub enum RunnerState {
    /// Initial, before the first tick.
    Idle,
    /// Between ticks, blocked on whichever of the interval timer and the
    /// shutdown signal resolves first.
    Waiting,
    /// Executing one invocation via the timed executor.
    Running,
    /// Terminal.
    Stopped,
}

/// What a runner can observe. In `Waiting`, exactly one of `TickFired` and
/// `ShutdownObserved` arrives: whichever of the interval timer and the
/// shutdown signal resolves first. A shutdown that fires while the runner is
/// `Running` is not an event of its own; it is observed, deferred, at the next
/// `Waiting` evaluation.
#[derive(Debug)]
pub enum RunnerEvent {
    /// The runner's loop has been started.
    Started,
    /// The interval timer fired first.
    TickFired,
    /// The shutdown signal resolved first.
    ShutdownObserved,
    /// The current invocation's `execute` call returned with this outcome.
    InvocationFinished(Outcome),
}

/// What the loop must do after a step.
#[derive(Debug, Clone, Copy, PartialEq, Eq, Structural)]
pub enum RunnerDirective {
    /// Block on the interval timer and the shutdown signal, whichever resolves
    /// first.
    AwaitNext,
    /// Start one invocation through the timed executor.
    BeginInvocation,
    /// Exit the loop; the runner is stopped.
    ExitLoop,
}

/// The runner's transition function. Events that a state cannot observe leave
/// it unchanged.
pub open spec fn spec_runner_step(state: RunnerState, event: RunnerEvent) -> (RunnerState, RunnerDirective) {
    match (state, event) {
        (RunnerState::Idle, RunnerEvent::Started) => (RunnerState::Waiting, RunnerDirective::AwaitNext),
        (RunnerState::Waiting, RunnerEvent::TickFired) => (
            RunnerState::Running,
            RunnerDirective::BeginInvocation,
        ),
        (RunnerState::Waiting, RunnerEvent::ShutdownObserved) => (
            RunnerState::Stopped,
            RunnerDirective::ExitLoop,
        ),
        (RunnerState::Running, RunnerEvent::InvocationFinished(_)) => (
            RunnerState::Waiting,
            RunnerDirective::AwaitNext,
        ),
        (RunnerState::Stopped, _) => (RunnerState::Stopped, RunnerDirective::ExitLoop),
        (s, _) => (s, RunnerDirective::AwaitNext),
    }
}

/// Take one step of the runner's state machine.
///
/// The only path into `Stopped` is observing the shutdown signal while
/// `Waiting`: no outcome of an invocation — success, application error or
/// timeout — ever terminates the loop. `Running` never steps to `Stopped`
/// directly: a shutdown that fires mid-invocation is observed at the next
/// `Waiting` evaluation, so a runner's shutdown latency is bounded by its
/// configured timeout, not by its interval.
pub fn runner_step(state: RunnerState, event: &RunnerEvent) -> (r: (RunnerState, RunnerDirective))
    ensures
        r == spec_runner_step(state, *event),
        r.0 is Stopped <==> state is Stopped || (state is Waiting && *event is ShutdownObserved),
        state is Running && (*event matches RunnerEvent::InvocationFinished(_)) ==> r.0 is Waiting
            && r.1 is AwaitNext,
        r.1 is ExitLoop <==> r.0 is Stopped,
{
    match (state, event) {
        (RunnerState::Idle, RunnerEvent::Started) => (
            RunnerState::Waiting,
            RunnerDirective::AwaitNext,
        ),
        (RunnerState::Waiting, RunnerEvent::TickFired) => (
            RunnerState::Running,
            RunnerDirective::BeginInvocation,
        ),
        (RunnerState::Waiting, RunnerEvent::ShutdownObserved) => (
            RunnerState::Stopped,
            RunnerDirective::ExitLoop,
        ),
        (RunnerState::Running, RunnerEvent::InvocationFinished(_)) => (
            RunnerState::Waiting,
            RunnerDirective::AwaitNext,
        ),
        (RunnerState::Stopped, _) => (RunnerState::Stopped, RunnerDirective::ExitLoop),
        (s, _) => (s, RunnerDirective::AwaitNext),
    }
}

/// Law: an invocation begins only from `Waiting`, and beginning one enters
/// `Running`. Together with the next law, `Running` periods of one runner can
/// never overlap: a second invocation cannot begin until the first has
/// finished and the runner has waited again.
pub proof fn lemma_invocation_begins_only_from_waiting(state: RunnerState, event: RunnerEvent)
    ensures
        spec_runner_step(state, event).1 is BeginInvocation ==> state is Waiting
            && spec_runner_step(state, event).0 is Running,
{
}

/// Law: `Running` is left only by the invocation finishing, and only into
/// `Waiting` — never into `Stopped`, whatever the outcome and even if the
/// shutdown signal fired meanwhile: its observation is deferred to the next
/// `Waiting` evaluation.
pub proof fn lemma_running_exits_only_by_finishing(state: RunnerState, event: RunnerEvent)
    ensures
        state is Running && !(spec_runner_step(state, event).0 is Running) ==> (
        event matches RunnerEvent::InvocationFinished(_)) && spec_runner_step(state, event).0
            is Waiting,
{
}

/// Law: a stopped runner never begins another invocation; its loop only
/// exits.
pub proof fn lemma_stopped_is_terminal(state: RunnerState, event: RunnerEvent)
    ensures
        state is Stopped ==> spec_runner_step(state, event).0 is Stopped && spec_runner_step(
            state,
            event,
        ).1 is ExitLoop,
{
}

/// The errors a task's loop reports for one invocation.
#[derive(Debug)]
pub enum TaskError {
    /// The task was asked to back off. Retry with backoff is an open extension
    /// point of the runner, not implemented: no outcome maps to this variant
    /// yet.
    Backoff,
    /// The invocation did not complete within its configured timeout.
    Timeout,
    /// The operation completed but reported this failure.
    TaskFailed(String),
}

impl TaskError {
    /// A diagnostic message for this error.
    pub fn message(&self) -> (r: String)
        ensures
            *self is Backoff ==> r@ == "task was asked to backoff"@,
            *self is Timeout ==> r@ == "task timed out"@,
            *self matches TaskError::TaskFailed(detail) ==> r@ == "task failed: "@ + detail@,
    {
        match self {
            TaskError::Backoff => String::from_str("task was asked to backoff"),
            TaskError::Timeout => String::from_str("task timed out"),
            TaskError::TaskFailed(detail) => {
                let mut msg = String::from_str("task failed: ");
                msg.append(detail.as_str());
                msg
            },
        }
    }
}

/// The error that the bundled sample operations report when they fail.
#[derive(Debug, Clone, Copy, PartialEq, Eq, Structural)]
pub struct MyTaskError;

impl MyTaskError {
    /// A diagnostic message for this error.
    pub fn message(&self) -> (r: String)
        ensures
            r@ == "task failed"@,
    {
        String::from_str("task failed")
    }
}

} // verus!
