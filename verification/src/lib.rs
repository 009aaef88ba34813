//! Core of a poll-based file watcher that re-runs a shell command whenever any
//! watched file changes, cancelling a still-running command before starting the
//! replacement.
//!
//! The crate holds the decision logic only: fingerprinting the watched state,
//! detecting a change between poll ticks, and supervising the lifecycle of the
//! single current run. Reading file metadata, sleeping between ticks and
//! spawning the shell are left to the surrounding program, which feeds plain
//! values (timestamps, events) in and carries the returned actions out.

pub mod error;
pub mod fingerprint;
pub mod poll;
pub mod supervisor;
pub mod watch;
