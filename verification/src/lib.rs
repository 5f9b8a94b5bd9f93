//! A verified model of a distributed-tracing export pipeline lifecycle.
//!
//! The library covers the part of such a pipeline where ordering, failure
//! propagation, and one-shot semantics are decided: building an exporter
//! configuration from a collector endpoint, wrapping it in a batching layer,
//! attaching service-identity attributes, installing the result as the
//! process-wide provider, and draining everything exactly once at shutdown.
//! Transport, span creation, and the concurrency runtime are collaborators
//! outside this crate; the functions here take their outcomes as plain values
//! and decide every state transition of the pipeline.

pub mod batch;
pub mod errors;
pub mod exporter;
pub mod init;
pub mod laws;
pub mod provider;
pub mod registry;
pub mod resource;
pub mod shutdown;
pub mod span;
