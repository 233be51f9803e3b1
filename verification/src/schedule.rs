//! The timing model of one periodic runner's whole schedule.
//!
//! A runner ticks on a fixed interval, feeds every tick through the timed
//! executor, and observes the shutdown signal at its `Waiting` evaluations,
//! never mid-invocation. This module states that schedule exactly — when each
//! invocation starts and ends, how many happen before the shutdown signal, and
//! when the runner stops — and proves the schedule's laws: invocations are
//! strictly sequential, none starts once the signal has fired, and no outcome
//! of an invocation ever stops the ticking.

use vstd::prelude::*;
use vstd::arithmetic::div_mod::{lemma_fundamental_div_mod, lemma_fundamental_div_mod_converse_div};
use vstd::arithmetic::mul::lemma_mul_inequality;
use vstd::math::max;
use crate::executor::{execute, spec_execute_elapsed, spec_execute_outcome, OpBehavior};
use crate::outcome::Outcome;

verus! {

/// Immutable configuration for one recurring unit of work. Created once at
/// supervisor setup, never mutated, owned exclusively by its runner.
/// `interval` and `timeout` are durations in one arbitrary time unit.
#[derive(Debug)]
pub struct TaskDescriptor {
    /// Identifier, for diagnostics only.
    pub name: String,
    /// Duration between successive invocations.
    pub interval: u64,
    /// Maximum duration allowed for a single invocation.
    pub timeout: u64,
}

/// Why a task descriptor was refused at registration time.
#[derive(Debug, Clone, Copy, PartialEq, Eq, Structural)]
pub enum ConfigFault {
    /// The interval must be a positive duration.
    ZeroInterval,
    /// The timeout must be a positive duration.
    ZeroTimeout,
}

impl TaskDescriptor {
    /// A descriptor is well formed when both durations are positive.
    pub open spec fn wf(self) -> bool {
        self.interval > 0 && self.timeout > 0
    }

    /// Refuse a malformed descriptor, naming the first fault found.
    pub fn check(&self) -> (r: Result<(), ConfigFault>)
        ensures
            r is Ok <==> self.wf(),
            self.interval == 0 ==> r == Result::<(), ConfigFault>::Err(ConfigFault::ZeroInterval),
            self.interval > 0 && self.timeout == 0 ==> r == Result::<(), ConfigFault>::Err(
                ConfigFault::ZeroTimeout,
            ),
    {
        if self.interval == 0 {
            Err(ConfigFault::ZeroInterval)
        } else if self.timeout == 0 {
            Err(ConfigFault::ZeroTimeout)
        } else {
            Ok(())
        }
    }
}

/// The mathematical model of one invocation: when it started, when its
/// `execute` call returned, and what it was classified as.
pub struct Invocation {
    pub start: int,
    pub end: int,
    pub outcome: Outcome,
}

/// One invocation as a runner records it.
#[derive(Debug)]
pub struct InvocationRecord {
    /// The time the invocation started.
    pub start: u64,
    /// The time its `execute` call returned.
    pub end: u64,
    /// What it was classified as.
    pub outcome: Outcome,
}

impl View for InvocationRecord {
    type V = Invocation;

    open spec fn view(&self) -> Invocation {
        Invocation { start: self.start as int, end: self.end as int, outcome: self.outcome }
    }
}

/// What one runner did over its whole life: every invocation, in order, and
/// the moment the runner reached `Stopped`.
#[derive(Debug)]
pub struct RunLog {
    pub invocations: Vec<InvocationRecord>,
    pub stopped_at: u64,
}

/// The spacing between the starts of successive invocations: the interval,
/// unless invocations occupy the runner for longer than the interval — a new
/// invocation never starts before the previous `execute` call has returned,
/// so a slow or hung operation stretches the spacing to its own duration.
pub open spec fn spec_gap(desc: TaskDescriptor, b: OpBehavior) -> int {
    max(desc.interval as int, spec_execute_elapsed(b, desc.timeout) as int)
}

/// The model of invocation `k`: starts at `k` gaps, occupies the runner for
/// the executor's elapsed time, and is classified once.
pub open spec fn spec_invocation(desc: TaskDescriptor, b: OpBehavior, k: int) -> Invocation {
    Invocation {
        start: k * spec_gap(desc, b),
        end: k * spec_gap(desc, b) + spec_execute_elapsed(b, desc.timeout),
        outcome: spec_execute_outcome(b, desc.timeout),
    }
}

/// How many invocations start before the shutdown signal fires at
/// `shutdown_at`: one per gap, the first at time zero, none at or after the
/// signal.
pub open spec fn spec_invocation_count(desc: TaskDescriptor, b: OpBehavior, shutdown_at: int) -> int {
    (shutdown_at + spec_gap(desc, b) - 1) / spec_gap(desc, b)
}

/// When the runner reaches `Stopped`: at the signal, unless an invocation is
/// still running then — shutdown is observed only at a `Waiting` evaluation,
/// so a signal that fires mid-invocation is deferred until that invocation's
/// `execute` call returns.
pub open spec fn spec_stop_time(desc: TaskDescriptor, b: OpBehavior, shutdown_at: int) -> int {
    let n = spec_invocation_count(desc, b, shutdown_at);
    if n > 0 {
        max(shutdown_at, spec_invocation(desc, b, n - 1).end)
    } else {
        shutdown_at
    }
}

/// The log one runner hands back matches the schedule's model exactly: the
/// count of invocations the signal admitted, each invocation's start, end and
/// outcome, and the moment the runner stopped.
pub open spec fn log_matches_schedule(
    log: RunLog,
    desc: TaskDescriptor,
    b: OpBehavior,
    shutdown_at: int,
) -> bool {
    &&& log.invocations@.len() == spec_invocation_count(desc, b, shutdown_at)
    &&& forall|k: int| 0 <= k < log.invocations@.len() ==> (#[trigger] log.invocations@[k])@
        == spec_invocation(desc, b, k)
    &&& log.stopped_at == spec_stop_time(desc, b, shutdown_at)
}

/// Run one task's whole schedule over the model of its operation's behaviour:
/// tick on the interval from time zero, feed every tick through the timed
/// executor, and stop at the first `Waiting` evaluation at or after the
/// shutdown signal. Ticks delayed by a long invocation fire as soon as the
/// runner returns to `Waiting`.
pub fn run_schedule(desc: &TaskDescriptor, behavior: &OpBehavior, shutdown_at: u64) -> (log: RunLog)
    requires
        desc.wf(),
        shutdown_at + desc.interval + desc.timeout <= u64::MAX,
    ensures
        log_matches_schedule(log, *desc, *behavior, shutdown_at as int),
        log.stopped_at >= shutdown_at,
{
    let ghost g = spec_gap(*desc, *behavior);
    let ghost e = spec_execute_elapsed(*behavior, desc.timeout) as int;
    let mut invocations: Vec<InvocationRecord> = Vec::new();
    let mut next_tick: u64 = 0;
    let mut prev_end: u64 = 0;
    assert(invocations@.len() == 0);
    loop
        invariant
            desc.wf(),
            shutdown_at + desc.interval + desc.timeout <= u64::MAX,
            g == spec_gap(*desc, *behavior),
            e == spec_execute_elapsed(*behavior, desc.timeout) as int,
            0 <= e <= g,
            desc.interval <= g,
            next_tick as int == invocations@.len() * desc.interval,
            prev_end as int == if invocations@.len() == 0 {
                0int
            } else {
                (invocations@.len() - 1) * g + e
            },
            max(next_tick as int, prev_end as int) == invocations@.len() * g,
            invocations@.len() == 0 || (invocations@.len() - 1) * g < shutdown_at,
            forall|k: int| 0 <= k < invocations@.len() ==> (#[trigger] invocations@[k])@
                == spec_invocation(*desc, *behavior, k),
        ensures
            invocations@.len() * g >= shutdown_at,
            invocations@.len() == 0 || (invocations@.len() - 1) * g < shutdown_at,
            prev_end as int == if invocations@.len() == 0 {
                0int
            } else {
                (invocations@.len() - 1) * g + e
            },
            forall|k: int| 0 <= k < invocations@.len() ==> (#[trigger] invocations@[k])@
                == spec_invocation(*desc, *behavior, k),
        decreases max(0, shutdown_at as int - invocations@.len() * g),
    {
        let start = if next_tick >= prev_end {
            next_tick
        } else {
            prev_end
        };
        assert(start as int == invocations@.len() * g);
        if start >= shutdown_at {
            break;
        }
        let execution = execute(behavior, desc.timeout);
        let end = start + execution.elapsed;
        let ghost n = invocations@.len() as int;
        invocations.push(InvocationRecord { start, end, outcome: execution.outcome });
        proof {
            assert((n + 1) * desc.interval == n * desc.interval + desc.interval) by (nonlinear_arith);
            assert((n + 1) * g == n * g + g) by (nonlinear_arith);
            lemma_next_start(n + 1, desc.interval as int, e, g);
        }
        next_tick = next_tick + desc.interval;
        prev_end = end;
    }
    proof {
        lemma_count_from_bracketing(
            invocations@.len() as int,
            g,
            shutdown_at as int,
            *desc,
            *behavior,
        );
    }
    let stopped_at = if invocations.len() == 0 || prev_end <= shutdown_at {
        shutdown_at
    } else {
        prev_end
    };
    RunLog { invocations, stopped_at }
}

/// Once the previous invocation has ended, the next starts at its own tick or
/// immediately, whichever is later: `n` gaps after time zero.
proof fn lemma_next_start(n: int, interval: int, e: int, g: int)
    requires
        1 <= n,
        1 <= interval,
        0 <= e,
        g == max(interval, e),
    ensures
        max(n * interval, (n - 1) * g + e) == n * g,
{
    if interval >= e {
        assert(g == interval);
        assert((n - 1) * g + e <= n * g && n * interval == n * g) by (nonlinear_arith)
            requires
                g == interval,
                e <= g,
                1 <= n,
        ;
    } else {
        assert(g == e);
        assert(n * interval <= n * g) by (nonlinear_arith)
            requires
                interval <= g,
                0 <= n,
        ;
        assert((n - 1) * g + e == n * g) by (nonlinear_arith)
            requires
                g == e,
        ;
    }
}

/// A number of invocations that brackets the signal — the last started before
/// it, the next would not — is exactly the invocation count.
proof fn lemma_count_from_bracketing(
    n: int,
    g: int,
    shutdown_at: int,
    desc: TaskDescriptor,
    b: OpBehavior,
)
    requires
        desc.wf(),
        g == spec_gap(desc, b),
        0 <= n,
        0 <= shutdown_at,
        n * g >= shutdown_at,
        n == 0 || (n - 1) * g < shutdown_at,
    ensures
        n == spec_invocation_count(desc, b, shutdown_at),
{
    assert(1 <= g);
    if n == 0 {
        assert(shutdown_at == 0);
        lemma_fundamental_div_mod_converse_div(g - 1, g, 0, g - 1);
    } else {
        assert(0 <= shutdown_at + g - 1 - n * g < g) by (nonlinear_arith)
            requires
                1 <= g,
                1 <= n,
                n * g >= shutdown_at,
                (n - 1) * g < shutdown_at,
        ;
        lemma_fundamental_div_mod_converse_div(shutdown_at + g - 1, g, n, shutdown_at + g - 1 - n * g);
    }
}

/// Every invocation the signal admits starts strictly before the signal.
proof fn lemma_counted_starts_before_signal(desc: TaskDescriptor, b: OpBehavior, shutdown_at: int, k: int)
    requires
        desc.wf(),
        0 <= shutdown_at,
        0 <= k < spec_invocation_count(desc, b, shutdown_at),
    ensures
        k * spec_gap(desc, b) < shutdown_at,
{
    let g = spec_gap(desc, b);
    let n = spec_invocation_count(desc, b, shutdown_at);
    lemma_fundamental_div_mod(shutdown_at + g - 1, g);
    assert(n * g <= shutdown_at + g - 1) by (nonlinear_arith)
        requires
            1 <= g,
            shutdown_at + g - 1 == g * n + (shutdown_at + g - 1) % g,
            0 <= (shutdown_at + g - 1) % g,
    ;
    lemma_mul_inequality(k, n - 1, g);
    assert((n - 1) * g == n * g - g) by (nonlinear_arith);
}

/// Law: invocations of one task are strictly sequential. No two `Running`
/// periods ever overlap: every invocation's `execute` call returns no later
/// than any later invocation starts, whatever the operation's behaviour and
/// outcomes.
pub proof fn lemma_invocations_sequential(desc: TaskDescriptor, b: OpBehavior, i: int, j: int)
    requires
        desc.wf(),
        0 <= i < j,
    ensures
        spec_invocation(desc, b, i).end <= spec_invocation(desc, b, j).start,
{
    let g = spec_gap(desc, b);
    let e = spec_execute_elapsed(b, desc.timeout) as int;
    assert(i * g + e <= (i + 1) * g) by (nonlinear_arith)
        requires
            e <= g,
    ;
    lemma_mul_inequality(i + 1, j, g);
}

/// Law: once the shutdown signal has fired, no invocation starts. Every
/// invocation in the schedule starts strictly before the signal, and so
/// before the runner observes it — the runner observes the signal no earlier
/// than the signal itself.
pub proof fn lemma_no_invocation_starts_after_signal(
    desc: TaskDescriptor,
    b: OpBehavior,
    shutdown_at: int,
    k: int,
)
    requires
        desc.wf(),
        0 <= shutdown_at,
        0 <= k < spec_invocation_count(desc, b, shutdown_at),
    ensures
        spec_invocation(desc, b, k).start < shutdown_at,
        spec_invocation(desc, b, k).start < spec_stop_time(desc, b, shutdown_at),
        spec_stop_time(desc, b, shutdown_at) >= shutdown_at,
{
    lemma_counted_starts_before_signal(desc, b, shutdown_at, k);
}

/// The behaviour of an operation that always completes after `after` time
/// units and reports this application error.
pub open spec fn always_fails(after: u64, detail: String) -> OpBehavior {
    OpBehavior::Completes { after, result: Err(detail) }
}

/// The behaviour of an operation that always completes after `after` time
/// units and reports success.
pub open spec fn always_succeeds(after: u64) -> OpBehavior {
    OpBehavior::Completes { after, result: Ok(()) }
}

/// Law: failures never stop the schedule. A task whose operation always
/// returns an application error is invoked exactly as often, and at exactly
/// the same times, as one whose operation succeeds in the same time: the
/// schedule depends only on how long invocations occupy the runner, never on
/// their outcomes.
pub proof fn lemma_application_errors_never_stop_schedule(
    desc: TaskDescriptor,
    after: u64,
    detail: String,
    shutdown_at: int,
)
    ensures
        spec_invocation_count(desc, always_fails(after, detail), shutdown_at)
            == spec_invocation_count(desc, always_succeeds(after), shutdown_at),
        forall|k: int| (#[trigger] spec_invocation(desc, always_fails(after, detail), k)).start
            == spec_invocation(desc, always_succeeds(after), k).start,
        forall|k: int| (#[trigger] spec_invocation(desc, always_fails(after, detail), k)).end
            == spec_invocation(desc, always_succeeds(after), k).end,
{
    assert(spec_execute_elapsed(always_fails(after, detail), desc.timeout)
        == spec_execute_elapsed(always_succeeds(after), desc.timeout));
}

/// Law: the schedule never runs dry. For every bound `m` there is a time — `m`
/// gaps — by which a task still running has been invoked exactly `m` times:
/// a runner is stopped by the shutdown signal alone, never by its outcomes.
pub proof fn lemma_schedule_is_unbounded(desc: TaskDescriptor, b: OpBehavior, m: int)
    requires
        desc.wf(),
        0 <= m,
    ensures
        spec_invocation_count(desc, b, m * spec_gap(desc, b)) == m,
{
    let g = spec_gap(desc, b);
    lemma_fundamental_div_mod_converse_div(m * g + g - 1, g, m, g - 1);
}

} // verus!
