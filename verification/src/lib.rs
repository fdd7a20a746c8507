//! A verified core for a cooperatively-polled bridge between a
//! single-threaded host and a remote model-serving HTTP API.
//!
//! The library holds the logic of the bridge: configuration and lazy
//! client settings, model-name normalization, the upstream endpoint
//! table and request payloads, the registry of single-use continuation
//! handles, the queue of completed-operation results, the TTL-bounded
//! liveness cache, and the per-tick drain pass.  All network and host
//! plumbing lives outside the library and only hands plain values in
//! and out.

pub mod bridge;
pub mod config;
pub mod handles;
pub mod liveness;
pub mod model_name;
pub mod outcome;
pub mod protocol;
pub mod queue;
