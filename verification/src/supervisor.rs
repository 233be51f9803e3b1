//! Supervisor: owns the set of periodic runners, starts them, triggers the
//! shutdown broadcaster, and waits for all runners to finish.
//!
//! `start` validates every descriptor and refuses a malformed one
//! synchronously. The timing of a whole supervised run — every runner's
//! schedule and what waiting on them reports — is modelled by
//! [`run_supervisor`]; the host runtime drives the same decisions in real
//! time.

use vstd::prelude::*;
use crate::executor::OpBehavior;
use crate::runner::{runner_step, RunnerEvent, RunnerState};
use crate::schedule::{
    log_matches_schedule, run_schedule, ConfigFault, RunLog, TaskDescriptor,
};
use crate::shutdown::{spec_signal, ShutdownBroadcaster};

verus! {

/// A malformed descriptor, refused at registration time: which descriptor,
/// and what is wrong with it.
#[derive(Debug, Clone, Copy, PartialEq, Eq, Structural)]
pub struct ConfigError {
    pub index: usize,
    pub fault: ConfigFault,
}

/// Every descriptor in the set is well formed.
pub open spec fn all_wf(descs: Seq<TaskDescriptor>) -> bool {
    forall|i: int| 0 <= i < descs.len() ==> (#[trigger] descs[i]).wf()
}

/// The live set of running periodic runners plus the shutdown broadcaster.
/// Created by `start`, destroyed after all runners have joined.
#[derive(Debug)]
pub struct SupervisorHandle {
    /// One descriptor per runner, owned for the runner's lifetime.
    pub descriptors: Vec<TaskDescriptor>,
    /// The single signal source every runner subscribes to.
    pub shutdown: ShutdownBroadcaster,
    /// Where each runner stands in its state machine.
    pub states: Vec<RunnerState>,
}

/// Start one runner per descriptor, each subscribed to the shutdown
/// broadcaster before it first waits. Refuses the whole set on the first
/// malformed descriptor, before any runner starts. Returns immediately; it
/// never blocks on any runner's execution.
pub fn start(descriptors: Vec<TaskDescriptor>) -> (r: Result<SupervisorHandle, ConfigError>)
    ensures
        r is Ok <==> all_wf(descriptors@),
        r matches Ok(h) ==> h.descriptors == descriptors && !h.shutdown.spec_fired()
            && h.states@.len() == descriptors@.len() && (forall|i: int|
            0 <= i < h.states@.len() ==> (#[trigger] h.states@[i]) is Waiting),
        r matches Err(e) ==> e.index < descriptors@.len() && !descriptors@[
            e.index as int
        ].wf() && (forall|j: int| 0 <= j < e.index ==> (#[trigger] descriptors@[j]).wf()) && e.fault
            == (if descriptors@[e.index as int].interval == 0 {
            ConfigFault::ZeroInterval
        } else {
            ConfigFault::ZeroTimeout
        }),
{
    let n = descriptors.len();
    let mut i: usize = 0;
    while i < n
        invariant
            n == descriptors@.len(),
            i <= n,
            forall|j: int| 0 <= j < i ==> (#[trigger] descriptors@[j]).wf(),
        decreases n - i,
    {
        match descriptors[i].check() {
            Ok(()) => {},
            Err(fault) => {
                return Err(ConfigError { index: i, fault });
            },
        }
        i = i + 1;
    }
    let mut states: Vec<RunnerState> = Vec::new();
    let mut k: usize = 0;
    while k < n
        invariant
            k == states@.len(),
            k <= n,
            forall|j: int| 0 <= j < k ==> (#[trigger] states@[j]) is Waiting,
        decreases n - k,
    {
        let (state, _) = runner_step(RunnerState::Idle, &RunnerEvent::Started);
        states.push(state);
        k = k + 1;
    }
    Ok(SupervisorHandle { descriptors, shutdown: ShutdownBroadcaster::new(), states })
}

impl SupervisorHandle {
    /// Fire the shutdown broadcaster, then let every runner observe it at its
    /// next `Waiting` evaluation: each runner that was waiting (or already
    /// stopped) is stopped afterwards. Firing is idempotent, and observing the
    /// signal is the only way a runner stops.
    pub fn shutdown_and_wait(&mut self)
        ensures
            final(self).shutdown == spec_signal(old(self).shutdown),
            final(self).shutdown.spec_fired(),
            final(self).descriptors == old(self).descriptors,
            final(self).states@.len() == old(self).states@.len(),
            forall|i: int| 0 <= i < old(self).states@.len() ==> (#[trigger] final(self).states@[i])
                == crate::runner::spec_runner_step(
                old(self).states@[i],
                RunnerEvent::ShutdownObserved,
            ).0,
            forall|i: int| 0 <= i < old(self).states@.len() && ((#[trigger] old(self).states@[i])
                is Waiting || old(self).states@[i] is Stopped) ==> final(self).states@[i]
                is Stopped,
    {
        self.shutdown.signal();
        let n = self.states.len();
        let mut i: usize = 0;
        while i < n
            invariant
                n == self.states@.len(),
                self.states@.len() == old(self).states@.len(),
                i <= n,
                self.shutdown == spec_signal(old(self).shutdown),
                self.descriptors == old(self).descriptors,
                forall|j: int| i <= j < n ==> (#[trigger] self.states@[j]) == old(
                    self,
                ).states@[j],
                forall|j: int| 0 <= j < i ==> (#[trigger] self.states@[j])
                    == crate::runner::spec_runner_step(
                    old(self).states@[j],
                    RunnerEvent::ShutdownObserved,
                ).0,
            decreases n - i,
        {
            let (state, _) = runner_step(self.states[i], &RunnerEvent::ShutdownObserved);
            self.states.set(i, state);
            i = i + 1;
        }
    }
}

/// How the supervisor reports the end of a wait for its runners.
#[derive(Debug, Clone, Copy, PartialEq, Eq, Structural)]
pub enum WaitVerdict {
    /// Every runner reached `Stopped`; the last did so at `at`.
    AllStopped { at: u64 },
    /// Best-effort wait: the grace period ran out at `deadline` with only
    /// `stopped` of the runners stopped — a partial-completion condition, not
    /// an error. A hung operation cannot be killed, so completion cannot be
    /// forced.
    GraceExceeded { deadline: u64, stopped: usize },
}

/// How many of the runners' stop times fall at or before the deadline.
pub open spec fn spec_count_stopped(times: Seq<u64>, deadline: int) -> int
    decreases times.len(),
{
    if times.len() == 0 {
        0
    } else {
        spec_count_stopped(times.drop_last(), deadline) + if times.last() <= deadline {
            1int
        } else {
            0int
        }
    }
}

/// Decide what waiting on the runners reports, from when each runner stopped,
/// when the signal fired, and the optional grace period. With no grace period
/// the wait is unbounded: it ends only when every runner has stopped, at the
/// latest stop time. With one, runners still running at the deadline are given
/// up on and counted.
pub fn wait_verdict(stop_times: &Vec<u64>, signaled_at: u64, grace: Option<u64>) -> (v: WaitVerdict)
    requires
        forall|i: int| 0 <= i < stop_times@.len() ==> (#[trigger] stop_times@[i]) >= signaled_at,
        grace matches Some(g) ==> signaled_at + g <= u64::MAX,
    ensures
        v is AllStopped <==> (grace matches Some(g) ==> forall|i: int|
            0 <= i < stop_times@.len() ==> (#[trigger] stop_times@[i]) <= signaled_at + g),
        v matches WaitVerdict::AllStopped { at } ==> at >= signaled_at && (forall|i: int|
            0 <= i < stop_times@.len() ==> (#[trigger] stop_times@[i]) <= at) && (at == signaled_at
            || exists|i: int| 0 <= i < stop_times@.len() && (#[trigger] stop_times@[i]) == at),
        v matches WaitVerdict::GraceExceeded { deadline, stopped } ==> (grace matches Some(g)
            && deadline == signaled_at + g) && (exists|i: int|
            0 <= i < stop_times@.len() && (#[trigger] stop_times@[i]) > deadline) && stopped
            == spec_count_stopped(stop_times@, deadline as int),
{
    let n = stop_times.len();
    let mut latest: u64 = signaled_at;
    let mut i: usize = 0;
    while i < n
        invariant
            n == stop_times@.len(),
            i <= n,
            latest >= signaled_at,
            forall|j: int| 0 <= j < i ==> (#[trigger] stop_times@[j]) <= latest,
            latest == signaled_at || exists|j: int| 0 <= j < i && (#[trigger] stop_times@[j])
                == latest,
        decreases n - i,
    {
        if stop_times[i] > latest {
            latest = stop_times[i];
        }
        i = i + 1;
    }
    match grace {
        None => WaitVerdict::AllStopped { at: latest },
        Some(g) => {
            let deadline = signaled_at + g;
            let mut stopped: usize = 0;
            let mut j: usize = 0;
            while j < n
                invariant
                    n == stop_times@.len(),
                    j <= n,
                    stopped <= j,
                    stopped == spec_count_stopped(
                        stop_times@.subrange(0, j as int),
                        deadline as int,
                    ),
                decreases n - j,
            {
                proof {
                    assert(stop_times@.subrange(0, j + 1).drop_last() =~= stop_times@.subrange(
                        0,
                        j as int,
                    ));
                    assert(stop_times@.subrange(0, j + 1).last() == stop_times@[j as int]);
                }
                if stop_times[j] <= deadline {
                    stopped = stopped + 1;
                }
                j = j + 1;
            }
            proof {
                assert(stop_times@.subrange(0, n as int) =~= stop_times@);
            }
            if latest <= deadline {
                WaitVerdict::AllStopped { at: latest }
            } else {
                WaitVerdict::GraceExceeded { deadline, stopped }
            }
        },
    }
}

/// What one whole supervised run did: every runner's log, and what the final
/// wait reported.
#[derive(Debug)]
pub struct SupervisorReport {
    pub logs: Vec<RunLog>,
    pub verdict: WaitVerdict,
}

/// The verdict accounts for the runners' logs: `AllStopped` exactly when
/// every runner stopped within the grace period (always, when no grace period
/// bounds the wait), reporting the moment the last runner stopped; a grace
/// overrun names the deadline and counts the runners that had stopped by it.
pub open spec fn verdict_explains_logs(
    verdict: WaitVerdict,
    logs: Seq<RunLog>,
    signaled_at: u64,
    grace: Option<u64>,
) -> bool {
    &&& (verdict is AllStopped <==> (grace matches Some(g) ==> forall|i: int|
        0 <= i < logs.len() ==> (#[trigger] logs[i]).stopped_at <= signaled_at + g))
    &&& (verdict matches WaitVerdict::AllStopped { at } ==> at >= signaled_at && (forall|i: int|
        0 <= i < logs.len() ==> (#[trigger] logs[i]).stopped_at <= at) && (at == signaled_at
        || exists|i: int| 0 <= i < logs.len() && (#[trigger] logs[i]).stopped_at == at))
    &&& (verdict matches WaitVerdict::GraceExceeded { deadline, stopped } ==> (grace matches Some(
        g,
    ) && deadline == signaled_at + g) && (exists|i: int|
        0 <= i < logs.len() && (#[trigger] logs[i]).stopped_at > deadline) && stopped
        == spec_count_stopped(logs.map_values(|l: RunLog| l.stopped_at), deadline as int))
}

/// Run a whole supervised set over the model of each operation's behaviour:
/// validate every descriptor, run every runner's schedule independently —
/// there is no ordering across tasks — with the one shared shutdown signal
/// firing at `shutdown_at`, then decide what waiting on the runners reports.
pub fn run_supervisor(
    descriptors: &Vec<TaskDescriptor>,
    behaviors: &Vec<OpBehavior>,
    shutdown_at: u64,
    grace: Option<u64>,
) -> (r: Result<SupervisorReport, ConfigError>)
    requires
        behaviors@.len() == descriptors@.len(),
        forall|i: int| 0 <= i < descriptors@.len() ==> shutdown_at + (#[trigger] descriptors@[i]).interval
            + descriptors@[i].timeout <= u64::MAX,
        grace matches Some(g) ==> shutdown_at + g <= u64::MAX,
    ensures
        r is Ok <==> all_wf(descriptors@),
        r matches Err(e) ==> e.index < descriptors@.len() && !descriptors@[
            e.index as int
        ].wf() && (forall|j: int| 0 <= j < e.index ==> (#[trigger] descriptors@[j]).wf()),
        r matches Ok(rep) ==> rep.logs@.len() == descriptors@.len(),
        r matches Ok(rep) ==> forall|i: int| 0 <= i < descriptors@.len() ==> log_matches_schedule(
            #[trigger] rep.logs@[i],
            descriptors@[i],
            behaviors@[i],
            shutdown_at as int,
        ),
        r matches Ok(rep) ==> verdict_explains_logs(rep.verdict, rep.logs@, shutdown_at, grace),
{
    let n = descriptors.len();
    let mut i: usize = 0;
    while i < n
        invariant
            n == descriptors@.len(),
            i <= n,
            forall|j: int| 0 <= j < i ==> (#[trigger] descriptors@[j]).wf(),
        decreases n - i,
    {
        match descriptors[i].check() {
            Ok(()) => {},
            Err(fault) => {
                return Err(ConfigError { index: i, fault });
            },
        }
        i = i + 1;
    }
    let mut logs: Vec<RunLog> = Vec::new();
    let mut stop_times: Vec<u64> = Vec::new();
    let mut k: usize = 0;
    while k < n
        invariant
            n == descriptors@.len(),
            behaviors@.len() == descriptors@.len(),
            all_wf(descriptors@),
            forall|i2: int| 0 <= i2 < descriptors@.len() ==> shutdown_at + (
            #[trigger] descriptors@[i2]).interval + descriptors@[i2].timeout <= u64::MAX,
            k <= n,
            logs@.len() == k,
            stop_times@.len() == k,
            forall|j: int| 0 <= j < k ==> log_matches_schedule(
                #[trigger] logs@[j],
                descriptors@[j],
                behaviors@[j],
                shutdown_at as int,
            ),
            forall|j: int| 0 <= j < k ==> (#[trigger] stop_times@[j]) == logs@[j].stopped_at,
            forall|j: int| 0 <= j < k ==> (#[trigger] stop_times@[j]) >= shutdown_at,
        decreases n - k,
    {
        let log = run_schedule(&descriptors[k], &behaviors[k], shutdown_at);
        stop_times.push(log.stopped_at);
        logs.push(log);
        k = k + 1;
    }
    let verdict = wait_verdict(&stop_times, shutdown_at, grace);
    proof {
        assert(stop_times@ =~= logs@.map_values(|l: RunLog| l.stopped_at));
        assert forall|j: int| 0 <= j < logs@.len() implies (#[trigger] logs@[j]).stopped_at
            == stop_times@[j] by {
            assert(stop_times@[j] == logs@[j].stopped_at);
        }
        assert forall|j: int| 0 <= j < stop_times@.len() implies (#[trigger] stop_times@[j])
            == logs@[j].stopped_at by {}
        match verdict {
            WaitVerdict::AllStopped { at } => {
                assert forall|i: int| 0 <= i < logs@.len() implies (#[trigger] logs@[i]).stopped_at
                    <= at by {
                    assert(stop_times@[i] <= at);
                }
                if at != shutdown_at {
                    let j = choose|j: int|
                        0 <= j < stop_times@.len() && (#[trigger] stop_times@[j]) == at;
                    assert(logs@[j].stopped_at == at);
                }
                if grace is Some {
                    assert forall|i: int|
                        0 <= i < logs@.len() implies (#[trigger] logs@[i]).stopped_at <= shutdown_at
                        + grace->Some_0 by {
                        assert(stop_times@[i] <= shutdown_at + grace->Some_0);
                    }
                }
            },
            WaitVerdict::GraceExceeded { deadline, stopped } => {
                let j = choose|j: int|
                    0 <= j < stop_times@.len() && (#[trigger] stop_times@[j]) > deadline;
                assert(logs@[j].stopped_at > deadline);
            },
        }
        assert(verdict_explains_logs(verdict, logs@, shutdown_at, grace));
    }
    Ok(SupervisorReport { logs, verdict })
}

} // verus!
