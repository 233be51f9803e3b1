use task_supervisor::executor::{execute, OpBehavior};
use task_supervisor::outcome::{classify, Outcome, RaceResult};
use task_supervisor::runner::{
    runner_step, MyTaskError, RunnerDirective, RunnerEvent, RunnerState, TaskError,
};

#[test]
fn classify_success() {
    let outcome = classify(RaceResult::Completed(Ok(())));
    assert_eq!(outcome, Outcome::Success);
}

#[test]
fn classify_application_error_keeps_detail() {
    let outcome = classify(RaceResult::Completed(Err("db unreachable".to_string())));
    assert_eq!(outcome, Outcome::ApplicationError("db unreachable".to_string()));
}

#[test]
fn classify_deadline_elapsed() {
    let outcome = classify(RaceResult::DeadlineElapsed);
    assert_eq!(outcome, Outcome::TimedOut);
}

#[test]
fn execute_completion_before_deadline_wins() {
    let b = OpBehavior::Completes { after: 10, result: Ok(()) };
    let e = execute(&b, 50);
    assert_eq!(e.outcome, Outcome::Success);
    assert_eq!(e.elapsed, 10);
}

#[test]
fn execute_application_error_before_deadline() {
    let b = OpBehavior::Completes { after: 10, result: Err("boom".to_string()) };
    let e = execute(&b, 50);
    assert_eq!(e.outcome, Outcome::ApplicationError("boom".to_string()));
    assert_eq!(e.elapsed, 10);
}

#[test]
fn execute_tie_goes_to_the_deadline() {
    // Completion at the same moment the deadline fires: the deadline wins.
    let b = OpBehavior::Completes { after: 20, result: Ok(()) };
    let e = execute(&b, 20);
    assert_eq!(e.outcome, Outcome::TimedOut);
    assert_eq!(e.elapsed, 20);
}

#[test]
fn execute_late_completion_is_timed_out() {
    let b = OpBehavior::Completes { after: 50, result: Ok(()) };
    let e = execute(&b, 20);
    assert_eq!(e.outcome, Outcome::TimedOut);
    assert_eq!(e.elapsed, 20);
}

#[test]
fn execute_hung_operation_times_out_after_exactly_its_timeout() {
    let e = execute(&OpBehavior::NeverCompletes, 30);
    assert_eq!(e.outcome, Outcome::TimedOut);
    assert_eq!(e.elapsed, 30);
}

#[test]
fn runner_starts_into_waiting() {
    let (state, directive) = runner_step(RunnerState::Idle, &RunnerEvent::Started);
    assert_eq!(state, RunnerState::Waiting);
    assert_eq!(directive, RunnerDirective::AwaitNext);
}

#[test]
fn runner_tick_begins_invocation() {
    let (state, directive) = runner_step(RunnerState::Waiting, &RunnerEvent::TickFired);
    assert_eq!(state, RunnerState::Running);
    assert_eq!(directive, RunnerDirective::BeginInvocation);
}

#[test]
fn runner_shutdown_in_waiting_stops() {
    let (state, directive) = runner_step(RunnerState::Waiting, &RunnerEvent::ShutdownObserved);
    assert_eq!(state, RunnerState::Stopped);
    assert_eq!(directive, RunnerDirective::ExitLoop);
}

#[test]
fn runner_application_error_does_not_stop_the_loop() {
    let event = RunnerEvent::InvocationFinished(Outcome::ApplicationError("err".to_string()));
    let (state, directive) = runner_step(RunnerState::Running, &event);
    assert_eq!(state, RunnerState::Waiting);
    assert_eq!(directive, RunnerDirective::AwaitNext);
}

#[test]
fn runner_timeout_does_not_stop_the_loop() {
    let event = RunnerEvent::InvocationFinished(Outcome::TimedOut);
    let (state, directive) = runner_step(RunnerState::Running, &event);
    assert_eq!(state, RunnerState::Waiting);
    assert_eq!(directive, RunnerDirective::AwaitNext);
}

#[test]
fn runner_success_returns_to_waiting() {
    let event = RunnerEvent::InvocationFinished(Outcome::Success);
    let (state, directive) = runner_step(RunnerState::Running, &event);
    assert_eq!(state, RunnerState::Waiting);
    assert_eq!(directive, RunnerDirective::AwaitNext);
}

#[test]
fn runner_stopped_is_terminal() {
    let (state, directive) = runner_step(RunnerState::Stopped, &RunnerEvent::TickFired);
    assert_eq!(state, RunnerState::Stopped);
    assert_eq!(directive, RunnerDirective::ExitLoop);
}

#[test]
fn task_error_messages() {
    assert_eq!(TaskError::Backoff.message(), "task was asked to backoff");
    assert_eq!(TaskError::Timeout.message(), "task timed out");
    assert_eq!(
        TaskError::TaskFailed("no route".to_string()).message(),
        "task failed: no route"
    );
}

#[test]
fn my_task_error_message() {
    assert_eq!(MyTaskError.message(), "task failed");
}
