//! Scheduling and coordination for keeping a locally materialized copy
//! (the accelerator) of a remote, federated data source in sync.
//!
//! The crate holds the refresh configuration and its validation against the
//! accelerator's schema ([`config`]), the jittered delay computation for the
//! periodic timer ([`delay`]), the scheduler that decides when a refresh
//! cycle is requested and reacts to completions ([`scheduler`]), the
//! single-flight runner that serializes start-requests against at most one
//! in-flight cycle ([`runner`]), the merge a cycle applies to the
//! accelerator ([`merge`]), and runtime-wide settings ([`runtime_config`]).

pub mod config;
pub mod delay;
pub mod merge;
pub mod runner;
pub mod runtime_config;
pub mod scheduler;
