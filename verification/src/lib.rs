//! Materializing an abstract sink description into a concrete destination:
//! either a topic in a publish/subscribe broker, with schemas published to a
//! registry, or an exclusively claimed append-only file.
//!
//! The library holds every decision of a sink build — defaulting policy,
//! deterministic naming, reply validation, error taxonomy, connector
//! assembly — as verified code. The external calls themselves (broker
//! metadata, config queries, topic creation, schema publication, file
//! creation) are the caller's: each build names the one request it is
//! waiting on, and consumes the reply as plain values.

use vstd::prelude::*;

pub mod connector;
pub mod paths;
pub mod register;
pub mod sink_build;
pub mod text;

verus! {

/// The fixed timeout, in seconds, applied to each broker request.
pub const BROKER_REQUEST_TIMEOUT_SECS: u64 = 5;

} // verus!
