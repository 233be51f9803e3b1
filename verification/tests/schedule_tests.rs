use task_supervisor::executor::OpBehavior;
use task_supervisor::outcome::Outcome;
use task_supervisor::runner::RunnerState;
use task_supervisor::schedule::{run_schedule, ConfigFault, TaskDescriptor};
use task_supervisor::shutdown::ShutdownBroadcaster;
use task_supervisor::supervisor::{
    run_supervisor, start, wait_verdict, ConfigError, WaitVerdict,
};

fn descriptor(name: &str, interval: u64, timeout: u64) -> TaskDescriptor {
    TaskDescriptor { name: name.to_string(), interval, timeout }
}

#[test]
fn check_refuses_zero_interval() {
    let d = descriptor("t", 0, 10);
    assert_eq!(d.check(), Err(ConfigFault::ZeroInterval));
}

#[test]
fn check_refuses_zero_timeout() {
    let d = descriptor("t", 10, 0);
    assert_eq!(d.check(), Err(ConfigFault::ZeroTimeout));
}

#[test]
fn check_accepts_positive_durations() {
    let d = descriptor("t", 10, 10);
    assert_eq!(d.check(), Ok(()));
}

#[test]
fn scenario_fast_success() {
    // interval 100, timeout 50, operation sleeps 10 and succeeds; watch 500.
    let d = descriptor("fast", 100, 50);
    let b = OpBehavior::Completes { after: 10, result: Ok(()) };
    let log = run_schedule(&d, &b, 500);
    assert_eq!(log.invocations.len(), 5);
    for (k, record) in log.invocations.iter().enumerate() {
        assert_eq!(record.start, 100 * k as u64);
        assert_eq!(record.end, 100 * k as u64 + 10);
        assert_eq!(record.outcome, Outcome::Success);
    }
    assert!(log.invocations.iter().all(|r| r.outcome != Outcome::TimedOut));
    assert_eq!(log.stopped_at, 500);
}

#[test]
fn scenario_every_invocation_times_out_but_ticking_continues() {
    // interval 100, timeout 20, operation sleeps 50: every invocation is
    // classified TimedOut and the schedule still ticks at 100 spacing.
    let d = descriptor("slow", 100, 20);
    let b = OpBehavior::Completes { after: 50, result: Ok(()) };
    let log = run_schedule(&d, &b, 500);
    assert_eq!(log.invocations.len(), 5);
    for (k, record) in log.invocations.iter().enumerate() {
        assert_eq!(record.start, 100 * k as u64);
        assert_eq!(record.end, 100 * k as u64 + 20);
        assert_eq!(record.outcome, Outcome::TimedOut);
    }
    assert_eq!(log.stopped_at, 500);
}

#[test]
fn hung_operation_is_timed_out_after_exactly_its_timeout_every_tick() {
    let d = descriptor("hung", 100, 30);
    let log = run_schedule(&d, &OpBehavior::NeverCompletes, 350);
    assert_eq!(log.invocations.len(), 4);
    for record in log.invocations.iter() {
        assert_eq!(record.end - record.start, 30);
        assert_eq!(record.outcome, Outcome::TimedOut);
    }
}

#[test]
fn application_errors_keep_the_schedule() {
    let d = descriptor("failing", 100, 50);
    let b = OpBehavior::Completes { after: 10, result: Err("always".to_string()) };
    let log = run_schedule(&d, &b, 500);
    assert_eq!(log.invocations.len(), 5);
    for (k, record) in log.invocations.iter().enumerate() {
        assert_eq!(record.start, 100 * k as u64);
        assert_eq!(record.outcome, Outcome::ApplicationError("always".to_string()));
    }
}

#[test]
fn invocations_never_overlap() {
    // A slow operation stretches the spacing instead of overlapping: interval
    // 10, each invocation occupies 25.
    let d = descriptor("stretch", 10, 100);
    let b = OpBehavior::Completes { after: 25, result: Ok(()) };
    let log = run_schedule(&d, &b, 200);
    assert_eq!(log.invocations.len(), 8);
    for k in 1..log.invocations.len() {
        assert!(log.invocations[k - 1].end <= log.invocations[k].start);
        assert_eq!(log.invocations[k].start, 25 * k as u64);
    }
}

#[test]
fn no_invocation_starts_at_or_after_the_signal() {
    let d = descriptor("t", 7, 3);
    let b = OpBehavior::Completes { after: 1, result: Ok(()) };
    let shutdown_at = 100;
    let log = run_schedule(&d, &b, shutdown_at);
    assert!(!log.invocations.is_empty());
    for record in log.invocations.iter() {
        assert!(record.start < shutdown_at);
    }
    assert!(log.stopped_at >= shutdown_at);
}

#[test]
fn shutdown_mid_invocation_is_deferred() {
    // The signal fires at 30 while invocation zero runs until 50: the runner
    // observes it only when that invocation returns.
    let d = descriptor("busy", 100, 60);
    let b = OpBehavior::Completes { after: 50, result: Ok(()) };
    let log = run_schedule(&d, &b, 30);
    assert_eq!(log.invocations.len(), 1);
    assert_eq!(log.invocations[0].start, 0);
    assert_eq!(log.invocations[0].end, 50);
    assert_eq!(log.stopped_at, 50);
}

#[test]
fn immediate_shutdown_admits_no_invocation() {
    let d = descriptor("t", 100, 50);
    let b = OpBehavior::Completes { after: 10, result: Ok(()) };
    let log = run_schedule(&d, &b, 0);
    assert!(log.invocations.is_empty());
    assert_eq!(log.stopped_at, 0);
}

#[test]
fn broadcaster_signal_fires_once_and_stays_fired() {
    let mut b = ShutdownBroadcaster::new();
    assert!(!b.is_fired());
    b.signal();
    assert!(b.is_fired());
}

#[test]
fn broadcaster_signal_twice_equals_once() {
    let mut once = ShutdownBroadcaster::new();
    once.signal();
    let mut twice = ShutdownBroadcaster::new();
    twice.signal();
    twice.signal();
    assert_eq!(once.is_fired(), twice.is_fired());
}

#[test]
fn start_refuses_the_first_malformed_descriptor() {
    let descriptors = vec![
        descriptor("a", 10, 10),
        descriptor("b", 10, 0),
        descriptor("c", 0, 10),
    ];
    let err = start(descriptors).err().expect("start must refuse");
    assert_eq!(err, ConfigError { index: 1, fault: ConfigFault::ZeroTimeout });
}

#[test]
fn start_leaves_every_runner_waiting_and_signal_unfired() {
    let descriptors = vec![descriptor("a", 10, 10), descriptor("b", 20, 5)];
    let handle = start(descriptors).ok().expect("start must accept");
    assert_eq!(handle.states.len(), 2);
    assert!(handle.states.iter().all(|s| *s == RunnerState::Waiting));
    assert!(!handle.shutdown.is_fired());
}

#[test]
fn shutdown_and_wait_stops_every_runner() {
    let descriptors = vec![descriptor("a", 10, 10), descriptor("b", 20, 5)];
    let mut handle = start(descriptors).ok().expect("start must accept");
    handle.shutdown_and_wait();
    assert!(handle.shutdown.is_fired());
    assert!(handle.states.iter().all(|s| *s == RunnerState::Stopped));
    // Signalling again changes nothing.
    handle.shutdown_and_wait();
    assert!(handle.shutdown.is_fired());
    assert!(handle.states.iter().all(|s| *s == RunnerState::Stopped));
}

#[test]
fn wait_verdict_without_grace_waits_for_the_last_runner() {
    let stop_times = vec![5, 7, 3];
    let v = wait_verdict(&stop_times, 2, None);
    assert_eq!(v, WaitVerdict::AllStopped { at: 7 });
}

#[test]
fn wait_verdict_with_no_runners_ends_at_the_signal() {
    let stop_times: Vec<u64> = Vec::new();
    let v = wait_verdict(&stop_times, 9, None);
    assert_eq!(v, WaitVerdict::AllStopped { at: 9 });
}

#[test]
fn wait_verdict_reports_a_grace_overrun() {
    let stop_times = vec![5, 20];
    let v = wait_verdict(&stop_times, 2, Some(10));
    assert_eq!(v, WaitVerdict::GraceExceeded { deadline: 12, stopped: 1 });
}

#[test]
fn wait_verdict_within_grace_is_all_stopped() {
    let stop_times = vec![5, 11];
    let v = wait_verdict(&stop_times, 2, Some(10));
    assert_eq!(v, WaitVerdict::AllStopped { at: 11 });
}

#[test]
fn scenario_immediate_shutdown_of_three_tasks() {
    // Three tasks, shutdown signalled immediately, no grace period: the wait
    // ends only with every runner stopped, and no invocation ever started.
    let descriptors = vec![
        descriptor("a", 100, 50),
        descriptor("b", 10, 5),
        descriptor("c", 1, 1),
    ];
    let behaviors = vec![
        OpBehavior::Completes { after: 10, result: Ok(()) },
        OpBehavior::Completes { after: 1, result: Err("e".to_string()) },
        OpBehavior::NeverCompletes,
    ];
    let report = run_supervisor(&descriptors, &behaviors, 0, None)
        .ok()
        .expect("descriptors are valid");
    assert_eq!(report.logs.len(), 3);
    for log in report.logs.iter() {
        assert!(log.invocations.is_empty());
        assert_eq!(log.stopped_at, 0);
    }
    assert_eq!(report.verdict, WaitVerdict::AllStopped { at: 0 });
}

#[test]
fn run_supervisor_refuses_a_malformed_set() {
    let descriptors = vec![descriptor("a", 10, 10), descriptor("b", 0, 1)];
    let behaviors = vec![OpBehavior::NeverCompletes, OpBehavior::NeverCompletes];
    let err = run_supervisor(&descriptors, &behaviors, 100, None)
        .err()
        .expect("must refuse");
    assert_eq!(err, ConfigError { index: 1, fault: ConfigFault::ZeroInterval });
}

#[test]
fn run_supervisor_counts_runners_stopped_within_grace() {
    // Task "hung" runs an invocation until 50, far past the deadline 15; task
    // "quick" stops at the signal.
    let descriptors = vec![descriptor("hung", 100, 50), descriptor("quick", 5, 1)];
    let behaviors = vec![
        OpBehavior::NeverCompletes,
        OpBehavior::Completes { after: 0, result: Ok(()) },
    ];
    let report = run_supervisor(&descriptors, &behaviors, 10, Some(5))
        .ok()
        .expect("descriptors are valid");
    assert_eq!(report.logs[0].stopped_at, 50);
    assert_eq!(report.logs[1].stopped_at, 10);
    assert_eq!(report.verdict, WaitVerdict::GraceExceeded { deadline: 15, stopped: 1 });
}

#[test]
fn run_supervisor_reports_the_last_stop_without_grace() {
    let descriptors = vec![descriptor("hung", 100, 50), descriptor("quick", 5, 1)];
    let behaviors = vec![
        OpBehavior::NeverCompletes,
        OpBehavior::Completes { after: 0, result: Ok(()) },
    ];
    let report = run_supervisor(&descriptors, &behaviors, 10, None)
        .ok()
        .expect("descriptors are valid");
    assert_eq!(report.verdict, WaitVerdict::AllStopped { at: 50 });
}
