//! The decision core of an instrumented request service: routing over a fixed
//! route table, per-request metrics aggregation and text exposition, trace
//! correlation, and a one-directional shutdown coordinator.
//!
//! Every function here is a step from plain values to plain values, so that
//! the surrounding runtime only performs I/O and hands the results back:
//!
//! - `route`: the fixed route table;
//! - `outcome`: the outcome class of a response status;
//! - `metrics`: the recorder and its exposition text;
//! - `trace`: trace identifiers, the inbound trace context and spans;
//! - `provider`: the tracer provider, exporting or no-op;
//! - `shutdown`: the coordinator from running through draining to stopped;
//! - `service`: the request timeout, the metrics middleware and the handlers;
//! - `runtime`: all of it as one value with the steps of a request's life.

pub mod metrics;
pub mod outcome;
pub mod provider;
pub mod route;
pub mod runtime;
pub mod service;
pub mod shutdown;
pub mod trace;
