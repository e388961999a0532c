//! Skipping a source that is backing off or not yet due.
use super::super::{CrawlBuffers, CrawlSummary};
use super::record::{pushed, written_if};
use crate::args::Args;
use crate::balance::{SourceBalancePolicy, SourceBalanceRecord, SourceRunStats};
use crate::health::record::constructors::labelled_ms;
use crate::health::record::input::HealthRecordInput;
use crate::health::record::status::{BackoffState, HealthStatus};
use crate::health::SourceHealthRecord;
use crate::registry::Source;
use crate::text::str_eq;
use vstd::prelude::*;

verus! {

/// `i64::saturating_add`.
pub open spec fn saturating_add_i64(a: i64, b: i64) -> i64 {
    let s = a + b;
    if s > i64::MAX {
        i64::MAX
    } else if s < i64::MIN {
        i64::MIN
    } else {
        s as i64
    }
}

/// The cadence gate of a source's tier: a `high` source is fetched at most once
/// every 15 minutes, a `medium` one every 30 minutes, a `low` one every 6
/// hours; a tier outside these three has no gate.
pub open spec fn cadence_of_tier(tier: Seq<char>) -> Option<i64> {
    if tier == "high"@ {
        Some(900_000)
    } else if tier == "medium"@ {
        Some(1_800_000)
    } else if tier == "low"@ {
        Some(21_600_000)
    } else {
        None
    }
}

/// The cadence interval, in milliseconds, of a source's tier.
pub fn cadence_interval_ms(source: &Source) -> (r: Option<i64>)
    ensures
        r == cadence_of_tier(source.cadence_tier@),
{
    if str_eq(source.cadence_tier.as_str(), "high") {
        Some(900_000)
    } else if str_eq(source.cadence_tier.as_str(), "medium") {
        Some(1_800_000)
    } else if str_eq(source.cadence_tier.as_str(), "low") {
        Some(21_600_000)
    } else {
        None
    }
}

/// When a source that last succeeded at `last_success_at_ms` is next due.
pub fn next_due_at(last_success_at_ms: i64, cadence_interval_ms: i64) -> (r: i64)
    ensures
        r == saturating_add_i64(last_success_at_ms, cadence_interval_ms),
{
    let s: i128 = last_success_at_ms as i128 + cadence_interval_ms as i128;
    if s > i64::MAX as i128 {
        i64::MAX
    } else if s < i64::MIN as i128 {
        i64::MIN
    } else {
        s as i64
    }
}

/// The bookkeeping of a skipped source: it counts as ok, with the given health
/// record and an idle balance record.
fn record_skip(
    args: &Args,
    balance_policy: SourceBalancePolicy,
    source: &Source,
    observed_at_ms: i64,
    health: SourceHealthRecord,
    buffers: &mut CrawlBuffers<'_>,
    summary: &mut CrawlSummary,
)
    requires
        old(summary).sources_ok < usize::MAX,
        old(summary).source_health_written < usize::MAX,
    ensures
        final(buffers).health_records@ == old(buffers).health_records@.push(health),
        pushed(old(buffers).balance_records@, final(buffers).balance_records@),
        final(buffers).balance_records@.last().describes_idle(source, balance_policy, observed_at_ms),
        *final(buffers).dedup == *old(buffers).dedup,
        final(buffers).raw_events == old(buffers).raw_events,
        final(buffers).heal_records == old(buffers).heal_records,
        final(buffers).balance_tracker == old(buffers).balance_tracker,
        *final(summary) == (CrawlSummary {
            sources_ok: (old(summary).sources_ok + 1) as usize,
            source_health_written: (old(summary).source_health_written + written_if(args.dry_run)) as usize,
            ..*old(summary)
        }),
{
    summary.sources_ok = summary.sources_ok + 1;
    buffers.health_records.push(health);
    let balance = SourceBalanceRecord::new(source, SourceRunStats::new(), balance_policy, observed_at_ms);
    buffers.balance_records.push(balance);
    summary.source_health_written = summary.source_health_written + if args.dry_run {
        0
    } else {
        1
    };
    proof {
        assert(buffers.balance_records@.drop_last() =~= old(buffers).balance_records@);
    }
}

/// A source whose fetch state says it is backing off is skipped: it counts as
/// ok and gets a `skipped_backoff` health record naming when the backoff ends,
/// and an idle balance record. Returns whether the source was skipped.
pub fn should_skip_source_for_backoff(
    args: &Args,
    balance_policy: SourceBalancePolicy,
    source: &Source,
    checked_at_ms: i64,
    observed_at_ms: i64,
    is_backing_off: bool,
    backoff_until_ms: Option<i64>,
    buffers: &mut CrawlBuffers<'_>,
    summary: &mut CrawlSummary,
) -> (skipped: bool)
    requires
        old(summary).sources_ok < usize::MAX,
        old(summary).source_health_written < usize::MAX,
    ensures
        skipped == is_backing_off,
        !skipped ==> *final(buffers) == *old(buffers) && *final(summary) == *old(summary),
        skipped ==> {
            &&& pushed(old(buffers).health_records@, final(buffers).health_records@)
            &&& final(buffers).health_records@.last().built_from(
                HealthRecordInput {
                    source,
                    checked_at_ms,
                    observed_at_ms,
                    status: HealthStatus::SkippedBackoff,
                    items_seen: 0,
                    events_written: 0,
                    duplicate_events_skipped: 0,
                    latency_ms: 0,
                    error: final(buffers).health_records@.last().error,
                    backoff_state: BackoffState::Active,
                },
            )
            &&& match backoff_until_ms {
                Some(until) => final(buffers).health_records@.last().error matches Some(e) && e@
                    == labelled_ms("backoff_until_ms="@, until),
                None => final(buffers).health_records@.last().error is None,
            }
            &&& pushed(old(buffers).balance_records@, final(buffers).balance_records@)
            &&& final(buffers).balance_records@.last().describes_idle(
                source,
                balance_policy,
                observed_at_ms,
            )
            &&& *final(buffers).dedup == *old(buffers).dedup
            &&& final(buffers).raw_events == old(buffers).raw_events
            &&& final(buffers).heal_records == old(buffers).heal_records
            &&& final(buffers).balance_tracker == old(buffers).balance_tracker
            &&& *final(summary) == (CrawlSummary {
                sources_ok: (old(summary).sources_ok + 1) as usize,
                source_health_written: (old(summary).source_health_written + written_if(
                    args.dry_run,
                )) as usize,
                ..*old(summary)
            })
        },
{
    if !is_backing_off {
        return false;
    }
    let health = SourceHealthRecord::skipped_backoff(
        source,
        checked_at_ms,
        observed_at_ms,
        backoff_until_ms,
    );
    record_skip(args, balance_policy, source, observed_at_ms, health, buffers, summary);
    proof {
        assert(buffers.health_records@.drop_last() =~= old(buffers).health_records@);
    }
    true
}

/// Whether the cadence holds a source back: never for a run pinned to one
/// source or to a backfill window, nor for a source that has not succeeded
/// yet; otherwise while the check comes before the next due time.
pub open spec fn cadence_defers(
    args: &Args,
    checked_at_ms: i64,
    last_success_at_ms: Option<i64>,
    cadence_interval_ms: i64,
) -> bool {
    &&& args.source_id is None
    &&& args.backfill_start_ms is None
    &&& args.backfill_end_ms is None
    &&& last_success_at_ms matches Some(last) && checked_at_ms < saturating_add_i64(
        last,
        cadence_interval_ms,
    )
}

/// Law: a run pinned to one source or to a backfill window, and a source that
/// has never succeeded, are never held back by the cadence.
pub proof fn lemma_cadence_bypass(
    args: &Args,
    checked_at_ms: i64,
    last_success_at_ms: Option<i64>,
    cadence_interval_ms: i64,
)
    ensures
        args.source_id is Some || args.backfill_start_ms is Some || args.backfill_end_ms is Some
            ==> !cadence_defers(args, checked_at_ms, last_success_at_ms, cadence_interval_ms),
        last_success_at_ms is None ==> !cadence_defers(
            args,
            checked_at_ms,
            last_success_at_ms,
            cadence_interval_ms,
        ),
{
}

/// A source that is not yet due under its cadence is skipped: it counts as ok
/// and gets a `skipped_cadence` health record naming when it is due, and an
/// idle balance record. Returns whether the source was skipped.
pub fn should_skip_source_for_cadence(
    args: &Args,
    balance_policy: SourceBalancePolicy,
    source: &Source,
    checked_at_ms: i64,
    observed_at_ms: i64,
    last_success_at_ms: Option<i64>,
    cadence_interval_ms: i64,
    buffers: &mut CrawlBuffers<'_>,
    summary: &mut CrawlSummary,
) -> (skipped: bool)
    requires
        old(summary).sources_ok < usize::MAX,
        old(summary).source_health_written < usize::MAX,
    ensures
        skipped == cadence_defers(args, checked_at_ms, last_success_at_ms, cadence_interval_ms),
        !skipped ==> *final(buffers) == *old(buffers) && *final(summary) == *old(summary),
        skipped ==> {
            let next_due = saturating_add_i64(last_success_at_ms.unwrap(), cadence_interval_ms);
            &&& pushed(old(buffers).health_records@, final(buffers).health_records@)
            &&& final(buffers).health_records@.last().built_from(
                HealthRecordInput {
                    source,
                    checked_at_ms,
                    observed_at_ms,
                    status: HealthStatus::SkippedCadence,
                    items_seen: 0,
                    events_written: 0,
                    duplicate_events_skipped: 0,
                    latency_ms: 0,
                    error: final(buffers).health_records@.last().error,
                    backoff_state: BackoffState::Clear,
                },
            )
            &&& final(buffers).health_records@.last().error matches Some(e) && e@ == labelled_ms(
                "next_due_at_ms="@,
                next_due,
            )
            &&& pushed(old(buffers).balance_records@, final(buffers).balance_records@)
            &&& final(buffers).balance_records@.last().describes_idle(
                source,
                balance_policy,
                observed_at_ms,
            )
            &&& *final(buffers).dedup == *old(buffers).dedup
            &&& final(buffers).raw_events == old(buffers).raw_events
            &&& final(buffers).heal_records == old(buffers).heal_records
            &&& final(buffers).balance_tracker == old(buffers).balance_tracker
            &&& *final(summary) == (CrawlSummary {
                sources_ok: (old(summary).sources_ok + 1) as usize,
                source_health_written: (old(summary).source_health_written + written_if(
                    args.dry_run,
                )) as usize,
                ..*old(summary)
            })
        },
{
    if args.source_id.is_some() || args.backfill_start_ms.is_some() {
        return false;
    }
    if args.backfill_end_ms.is_some() {
        return false;
    }
    let last = match last_success_at_ms {
        Some(last) => last,
        None => {
            return false;
        },
    };
    let next_due_at_ms = next_due_at(last, cadence_interval_ms);
    if checked_at_ms >= next_due_at_ms {
        return false;
    }
    let health = SourceHealthRecord::skipped_cadence(
        source,
        checked_at_ms,
        observed_at_ms,
        next_due_at_ms,
    );
    record_skip(args, balance_policy, source, observed_at_ms, health, buffers, summary);
    proof {
        assert(buffers.health_records@.drop_last() =~= old(buffers).health_records@);
    }
    true
}

} // verus!
