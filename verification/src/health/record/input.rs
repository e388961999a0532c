//! What a health record is built from.
use super::status::{BackoffState, HealthStatus};
use crate::registry::Source;
use vstd::prelude::*;

verus! {

pub struct HealthRecordInput<'a> {
    pub source: &'a Source,
    pub checked_at_ms: i64,
    pub observed_at_ms: i64,
    pub status: HealthStatus,
    pub items_seen: usize,
    pub events_written: usize,
    pub duplicate_events_skipped: usize,
    pub latency_ms: i64,
    pub error: Option<String>,
    pub backoff_state: BackoffState,
}

} // verus!
