//! Commit-construction pipeline for a remote Git hosting service.
//!
//! One commit is made by six dependent calls to the service's Git data API:
//! look up the branch tip, create a blob, a tree and a commit, then move the
//! branch to the new commit and confirm it. A probe of the network goes
//! before them. The library decides what is sent and what each reply means;
//! the caller carries the requests over the wire.
//!
//! - [`config`]: what a run is told before it starts.
//! - [`request`]: the calls, as values.
//! - [`json`]: reading replies and writing string literals with `serde_json`.
//! - [`text`]: the content of the file that a run writes.
//! - [`pipeline`]: the run, from one reply to the next call.
//! - [`laws`]: what is proved of every run.
//! - [`error`]: the ways a run can fail.

pub mod error;
pub mod text;
pub mod config;
pub mod json;
pub mod request;
pub mod pipeline;
pub mod laws;
