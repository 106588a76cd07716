//! Orchestration of a three-stage record / transcribe / deliver pipeline.
//!
//! The library holds the verified core: configuration merging, the exact
//! parameter lists handed to each external stage, the decision table that
//! judges the capture stage's exit, and the session state machine that
//! sequences the stages and propagates the first failure.

pub mod config;
pub mod exit;
pub mod invocation;
pub mod laws;
pub mod session;
pub mod textfmt;
