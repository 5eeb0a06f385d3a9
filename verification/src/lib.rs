//! Idempotent reconciliation logic for CI pipelines that post a single
//! marker-tagged comment on a merge request, and that push a generated file to
//! a branch while keeping exactly one open merge request for it.
//!
//! The crate holds the decision procedures only: given the current remote
//! state (notes, branch existence, open merge requests) as plain values, each
//! function decides what single write, if any, brings the remote to the
//! desired steady state. Issuing the actual REST calls is left to the caller.

pub mod commentator;
pub mod committer;
