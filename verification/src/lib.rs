//! Health-determination engine and request router for a sidecar that watches
//! a long-running inference API server.
//!
//! The library contains the logic of the sidecar: parsing the backend's log
//! lines, tracking a cursor into the append-only log file, computing a health
//! verdict from the reconstructed event stream, deciding when to fall back to
//! an active liveness probe, routing inbound HTTP requests, and planning the
//! one-time augmentation of the backend's info document.  All file and network
//! I/O lives outside the library and hands in plain values.
use vstd::prelude::*;

pub mod engine;
pub mod error;
pub mod machine;
pub mod parser;
pub mod probe;
pub mod push;
pub mod router;
pub mod tailer;
pub mod timestamp;

verus! {

/// Seconds of log silence after which the health loop probes the backend.
pub const MAX_IDLE_SECONDS: u64 = 30;

/// Default seconds between two iterations of the health loop.
pub const DEFAULT_POLL_INTERVAL_SECONDS: u64 = 10;

/// Number of delivery attempts before a push to a subscriber is abandoned.
pub const MAX_PUSH_ATTEMPTS: u32 = 3;

} // verus!
