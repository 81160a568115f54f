//! Discovers container-orchestration metadata for the running task and
//! composes it into a fixed set of prefixed environment variables, ready to
//! be handed to a replacement process.
//!
//! The verified core covers the decisions of the pipeline: validating the
//! configuration gathered from the environment, decoding the metadata
//! documents, the bounded-retry policy for the local endpoint, region
//! extraction from an ARN, the selection rules for the two remote lookup
//! answers, and the composition of the launch environment.

pub mod arn;
pub mod compose;
pub mod config;
pub mod json;
pub mod laws;
pub mod metadata;
pub mod resolve;
pub mod retry;
