//! The health records of each way a source's turn in a run can end.
use super::input::HealthRecordInput;
use super::saturating_sub_i64;
use super::saturating_sub_ms;
use super::status::{BackoffState, HealthStatus};
use super::SourceHealthRecord;
use crate::numbers::{i64_to_dec, push_i64};
use crate::registry::Source;
use vstd::prelude::*;

verus! {

/// The record's common fields for a source, times and status.
pub open spec fn record_of(
    r: SourceHealthRecord,
    source: &Source,
    checked_at_ms: i64,
    observed_at_ms: i64,
    status: HealthStatus,
    items_seen: usize,
    events_written: usize,
    duplicate_events_skipped: usize,
    latency_ms: i64,
    error: Option<String>,
    backoff_state: BackoffState,
) -> bool {
    r.built_from(
        HealthRecordInput {
            source,
            checked_at_ms,
            observed_at_ms,
            status,
            items_seen,
            events_written,
            duplicate_events_skipped,
            latency_ms,
            error,
            backoff_state,
        },
    )
}

/// `{label}{value}` as the diagnostic of a skipped fetch.
pub open spec fn labelled_ms(label: Seq<char>, value: i64) -> Seq<char> {
    label + i64_to_dec(value as int)
}

fn labelled_ms_exec(label: &str, value: i64) -> (s: String)
    ensures
        s@ == labelled_ms(label@, value),
{
    let mut s = label.to_owned();
    push_i64(&mut s, value);
    s
}

impl SourceHealthRecord {
    /// A fetch that returned items (`ok`) or none (`no_items`).
    pub fn ok(
        source: &Source,
        checked_at_ms: i64,
        observed_at_ms: i64,
        items_seen: usize,
        events_written: usize,
        duplicate_events_skipped: usize,
    ) -> (r: Self)
        ensures
            record_of(
                r,
                source,
                checked_at_ms,
                observed_at_ms,
                if items_seen == 0 {
                    HealthStatus::NoItems
                } else {
                    HealthStatus::Succeeded
                },
                items_seen,
                events_written,
                duplicate_events_skipped,
                saturating_sub_i64(observed_at_ms, checked_at_ms),
                None,
                BackoffState::Clear,
            ),
    {
        Self::new(
            HealthRecordInput {
                source,
                checked_at_ms,
                observed_at_ms,
                status: HealthStatus::from_items_seen(items_seen),
                items_seen,
                events_written,
                duplicate_events_skipped,
                latency_ms: saturating_sub_ms(observed_at_ms, checked_at_ms),
                error: None,
                backoff_state: BackoffState::Clear,
            },
        )
    }

    /// A fetch that failed with `error`; a retry is scheduled.
    pub fn failed(source: &Source, checked_at_ms: i64, observed_at_ms: i64, error: String) -> (r:
        Self)
        ensures
            record_of(
                r,
                source,
                checked_at_ms,
                observed_at_ms,
                HealthStatus::Failed,
                0,
                0,
                0,
                saturating_sub_i64(observed_at_ms, checked_at_ms),
                Some(error),
                BackoffState::Scheduled,
            ),
    {
        Self::new(
            HealthRecordInput {
                source,
                checked_at_ms,
                observed_at_ms,
                status: HealthStatus::Failed,
                items_seen: 0,
                events_written: 0,
                duplicate_events_skipped: 0,
                latency_ms: saturating_sub_ms(observed_at_ms, checked_at_ms),
                error: Some(error),
                backoff_state: BackoffState::Scheduled,
            },
        )
    }

    /// A conditional fetch answered "not modified".
    pub fn not_modified(source: &Source, checked_at_ms: i64, observed_at_ms: i64) -> (r: Self)
        ensures
            record_of(
                r,
                source,
                checked_at_ms,
                observed_at_ms,
                HealthStatus::NotModified,
                0,
                0,
                0,
                saturating_sub_i64(observed_at_ms, checked_at_ms),
                None,
                BackoffState::Clear,
            ),
    {
        Self::new(
            HealthRecordInput {
                source,
                checked_at_ms,
                observed_at_ms,
                status: HealthStatus::NotModified,
                items_seen: 0,
                events_written: 0,
                duplicate_events_skipped: 0,
                latency_ms: saturating_sub_ms(observed_at_ms, checked_at_ms),
                error: None,
                backoff_state: BackoffState::Clear,
            },
        )
    }

    /// A source skipped because it is backing off after failures.
    pub fn skipped_backoff(
        source: &Source,
        checked_at_ms: i64,
        observed_at_ms: i64,
        backoff_until_ms: Option<i64>,
    ) -> (r: Self)
        ensures
            r.built_from(
                HealthRecordInput {
                    source,
                    checked_at_ms,
                    observed_at_ms,
                    status: HealthStatus::SkippedBackoff,
                    items_seen: 0,
                    events_written: 0,
                    duplicate_events_skipped: 0,
                    latency_ms: 0,
                    error: r.error,
                    backoff_state: BackoffState::Active,
                },
            ),
            match backoff_until_ms {
                Some(until) => r.error matches Some(e) && e@ == labelled_ms(
                    "backoff_until_ms="@,
                    until,
                ),
                None => r.error is None,
            },
    {
        let error = match backoff_until_ms {
            Some(until) => Some(labelled_ms_exec("backoff_until_ms=", until)),
            None => None,
        };
        Self::new(
            HealthRecordInput {
                source,
                checked_at_ms,
                observed_at_ms,
                status: HealthStatus::SkippedBackoff,
                items_seen: 0,
                events_written: 0,
                duplicate_events_skipped: 0,
                latency_ms: 0,
                error,
                backoff_state: BackoffState::Active,
            },
        )
    }

    /// A source skipped because its cadence says it is not due until
    /// `next_due_at_ms`.
    pub fn skipped_cadence(
        source: &Source,
        checked_at_ms: i64,
        observed_at_ms: i64,
        next_due_at_ms: i64,
    ) -> (r: Self)
        ensures
            r.built_from(
                HealthRecordInput {
                    source,
                    checked_at_ms,
                    observed_at_ms,
                    status: HealthStatus::SkippedCadence,
                    items_seen: 0,
                    events_written: 0,
                    duplicate_events_skipped: 0,
                    latency_ms: 0,
                    error: r.error,
                    backoff_state: BackoffState::Clear,
                },
            ),
            r.error matches Some(e) && e@ == labelled_ms("next_due_at_ms="@, next_due_at_ms),
    {
        Self::new(
            HealthRecordInput {
                source,
                checked_at_ms,
                observed_at_ms,
                status: HealthStatus::SkippedCadence,
                items_seen: 0,
                events_written: 0,
                duplicate_events_skipped: 0,
                latency_ms: 0,
                error: Some(labelled_ms_exec("next_due_at_ms=", next_due_at_ms)),
                backoff_state: BackoffState::Clear,
            },
        )
    }
}

} // verus!
