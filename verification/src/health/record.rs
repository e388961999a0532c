//! The `source_health_v1` record written for every source of a run.
pub mod constructors;
pub mod input;
pub mod status;

use crate::hashing::{short_hash, short_hash_of};
use crate::numbers::{i64_to_dec, nat_to_dec, push_decimal, push_i64};
use crate::text::{push_char, push_str};
use input::HealthRecordInput;
use status::{BackoffState, HealthStatus};
use vstd::prelude::*;

verus! {

#[derive(Debug, Clone)]
pub struct SourceHealthRecord {
    pub schema_version: String,
    pub health_event_id: String,
    pub source_id: String,
    pub source_category: String,
    pub fetch_method: String,
    pub adapter: Option<String>,
    pub checked_at_ms: i64,
    pub observed_at_ms: i64,
    pub fetch_status: String,
    pub http_status_or_error: Option<String>,
    pub latency_ms: i64,
    pub items_fetched: usize,
    pub items_emitted: usize,
    pub dedup_dropped: usize,
    pub backoff_state: String,
    pub health_level: String,
    pub status: String,
    pub items_seen: usize,
    pub events_written: usize,
    pub duplicate_events_skipped: usize,
    pub error: Option<String>,
}

/// `i64::saturating_sub`.
pub open spec fn saturating_sub_i64(a: i64, b: i64) -> i64 {
    let d = a - b;
    if d > i64::MAX {
        i64::MAX
    } else if d < i64::MIN {
        i64::MIN
    } else {
        d as i64
    }
}

pub fn saturating_sub_ms(a: i64, b: i64) -> (r: i64)
    ensures
        r == saturating_sub_i64(a, b),
{
    let d: i128 = a as i128 - b as i128;
    if d > i64::MAX as i128 {
        i64::MAX
    } else if d < i64::MIN as i128 {
        i64::MIN
    } else {
        d as i64
    }
}

/// `src_health_` and the short hash of `source:checked_at:status:duplicates`.
pub open spec fn health_event_id_of(
    source_id: Seq<char>,
    checked_at_ms: i64,
    status: Seq<char>,
    duplicate_events_skipped: usize,
) -> Seq<char> {
    "src_health_"@ + short_hash_of(
        source_id + seq![':'] + i64_to_dec(checked_at_ms as int) + seq![':'] + status + seq![':']
            + nat_to_dec(duplicate_events_skipped as nat),
    )
}

impl SourceHealthRecord {
    /// The record fields an input determines.
    pub open spec fn built_from(self, input: HealthRecordInput) -> bool {
        &&& self.schema_version@ == "source_health_v1"@
        &&& self.health_event_id@ == health_event_id_of(
            input.source.source_id@,
            input.checked_at_ms,
            input.status.label(),
            input.duplicate_events_skipped,
        )
        &&& self.source_id@ == input.source.source_id@
        &&& self.source_category@ == input.source.source_category@
        &&& self.fetch_method@ == input.source.fetch_method@
        &&& self.adapter == input.source.adapter
        &&& self.checked_at_ms == input.checked_at_ms
        &&& self.observed_at_ms == input.observed_at_ms
        &&& self.fetch_status@ == input.status.label()
        &&& self.http_status_or_error == input.error
        &&& self.latency_ms == input.latency_ms
        &&& self.items_fetched == input.items_seen
        &&& self.items_emitted == input.events_written
        &&& self.dedup_dropped == input.duplicate_events_skipped
        &&& self.backoff_state@ == input.backoff_state.label()
        &&& self.health_level@ == input.status.level()
        &&& self.status@ == input.status.label()
        &&& self.items_seen == input.items_seen
        &&& self.events_written == input.events_written
        &&& self.duplicate_events_skipped == input.duplicate_events_skipped
        &&& self.error == input.error
    }

    pub fn new(input: HealthRecordInput<'_>) -> (r: Self)
        ensures
            r.built_from(input),
    {
        let status = input.status.as_str();
        let health_level = input.status.health_level();
        let mut basis = input.source.source_id.clone();
        push_char(&mut basis, ':');
        push_i64(&mut basis, input.checked_at_ms);
        push_char(&mut basis, ':');
        push_str(&mut basis, status);
        push_char(&mut basis, ':');
        push_decimal(&mut basis, input.duplicate_events_skipped as u64);
        let mut health_event_id = "src_health_".to_owned();
        let hash = short_hash(basis.as_str());
        push_str(&mut health_event_id, hash.as_str());
        proof {
            assert(basis@ =~= input.source.source_id@ + seq![':'] + i64_to_dec(
                input.checked_at_ms as int,
            ) + seq![':'] + input.status.label() + seq![':'] + nat_to_dec(
                input.duplicate_events_skipped as nat,
            ));
        }
        SourceHealthRecord {
            schema_version: "source_health_v1".to_owned(),
            health_event_id,
            source_id: input.source.source_id.clone(),
            source_category: input.source.source_category.clone(),
            fetch_method: input.source.fetch_method.clone(),
            adapter: input.source.adapter.clone(),
            checked_at_ms: input.checked_at_ms,
            observed_at_ms: input.observed_at_ms,
            fetch_status: status.to_owned(),
            http_status_or_error: input.error.clone(),
            latency_ms: input.latency_ms,
            items_fetched: input.items_seen,
            items_emitted: input.events_written,
            dedup_dropped: input.duplicate_events_skipped,
            backoff_state: input.backoff_state.as_str().to_owned(),
            health_level: health_level.to_owned(),
            status: status.to_owned(),
            items_seen: input.items_seen,
            events_written: input.events_written,
            duplicate_events_skipped: input.duplicate_events_skipped,
            error: input.error,
        }
    }
}

} // verus!
