//! Shutdown broadcaster: a single cancellation signal source fanned out to
//! every periodic runner.
//!
//! The signal is a single logical event per supervisor run: write-once,
//! read-many. Each runner holds its own subscription, created before the
//! runner first enters `Waiting`, so no runner can miss the signal; a runner
//! that has already stopped simply does not observe it.

use vstd::prelude::*;

verus! {

/// The one resource shared across all runners: whether the shutdown event has
/// fired. Firing is idempotent — after the first call, further calls are
/// no-ops.
#[derive(Debug)]
pub struct ShutdownBroadcaster {
    fired: bool,
}

/// The broadcaster's state after `signal`: fired, whatever it was before.
pub closed spec fn spec_signal(s: ShutdownBroadcaster) -> ShutdownBroadcaster {
    ShutdownBroadcaster { fired: true }
}

impl ShutdownBroadcaster {
    /// Whether the shutdown event has fired.
    pub closed spec fn spec_fired(&self) -> bool {
        self.fired
    }

    /// A fresh broadcaster; the event has not fired.
    pub fn new() -> (s: ShutdownBroadcaster)
        ensures
            !s.spec_fired(),
    {
        ShutdownBroadcaster { fired: false }
    }

    /// Fire the shutdown event. At most the first call fires it meaningfully;
    /// the state afterwards does not depend on the state before.
    pub fn signal(&mut self)
        ensures
            *final(self) == spec_signal(*old(self)),
            final(self).spec_fired(),
    {
        self.fired = true;
    }

    /// What a subscriber observes at a `Waiting` evaluation.
    pub fn is_fired(&self) -> (r: bool)
        ensures
            r == self.spec_fired(),
    {
        self.fired
    }
}

/// Law: `signal` is idempotent. Calling it twice leaves the broadcaster in
/// exactly the state one call leaves it in, whatever state it started from.
pub proof fn lemma_signal_idempotent(s: ShutdownBroadcaster)
    ensures
        spec_signal(spec_signal(s)) == spec_signal(s),
        spec_signal(s).spec_fired(),
{
}

} // verus!
