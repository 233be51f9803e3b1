//! A periodic task supervisor.
//!
//! The supervisor runs an arbitrary number of independent, recurring
//! background operations, enforces a per-invocation execution timeout, and
//! coordinates a synchronized graceful shutdown across all of them.
//!
//! The crate verifies the supervisor's decision logic: how one invocation's
//! result is classified, how a runner's schedule unfolds over time, when a
//! runner observes the shutdown signal, and what the supervisor reports after
//! waiting for its runners. The host runtime (timers, spawning, channels)
//! stays outside; it drives the verified state machine and classifier.
//!
//! A structural limitation, stated rather than hidden: a timed-out operation
//! is abandoned, not killed. Its eventual completion, if any, is discarded and
//! has no further effect on the runner's state, but the operation may still be
//! running in the background. Operations should tolerate this by being
//! idempotent to invoke.
//!
//! Alongside the supervisor, the crate carries the small verified domain types
//! that the surrounding applications share: identifiers and the permission
//! checks built on them, document titles and persistence errors, the actions a
//! document tool offers, and where persisted state lives.

pub mod action;
pub mod auth;
pub mod doc;
pub mod error;
pub mod executor;
pub mod outcome;
pub mod runner;
pub mod schedule;
pub mod shutdown;
pub mod storage;
pub mod supervisor;
pub mod types;
