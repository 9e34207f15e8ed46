//! Offline operation queue and synchronization engine for a local-first
//! point-of-sale client.
//!
//! Mutations made while disconnected are recorded as durable queue entries;
//! a dispatcher drains the queue in enqueue order once the backend is
//! reachable, retries failed attempts up to a fixed ceiling, and hands
//! confirmed server responses to a reconciler.  The queue, the dispatcher's
//! decisions, and the reconciliation mapping are verified; the surrounding
//! process (HTTP transport, timers) runs them from an unverified shell.

use vstd::prelude::*;

pub mod entry;
pub mod json;
pub mod models;
pub mod reconcile;
pub mod store;
pub mod sync_service;
pub mod transport;

verus! {

/// Maximum number of failed attempts before an entry is treated as
/// permanently failed and removed from the pending set.
pub const MAX_RETRIES: u32 = 5;

/// Seconds the dispatcher sleeps between ticks.
pub const SYNC_INTERVAL_SECONDS: u64 = 30;

} // verus!
