//! Client library for the Cloud Testing API.
//!
//! The heart of the crate is the request-execution pipeline in [`client`]:
//! a verified state machine that authenticates a call, retries transient
//! failures under the control of a caller-supplied policy, and classifies
//! terminal outcomes. The [`api`] module holds the service's data schemas
//! and the per-endpoint call builders that assemble a call description.

pub mod api;
pub mod client;
