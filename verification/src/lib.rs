//! Cluster-uptime-scoped counters of subtransaction lifecycle events.
//!
//! The library keeps four monotonically increasing counters (subtransaction
//! starts, commits, aborts, and subtransaction-cache overflow episodes),
//! the per-process overflow tracker that de-duplicates overflow episodes,
//! the event observer that drives both from host lifecycle notifications,
//! and the permission-guarded snapshot reader.

pub mod counters;
pub mod host;
pub mod laws;
pub mod observer;
pub mod reader;
