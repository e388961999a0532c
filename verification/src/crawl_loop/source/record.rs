//! Recording a source's fetch outcome: items, "not modified", or a failure.
use super::super::events::{append_all, append_source_events, append_start, relabelled};
use super::super::{CrawlBuffers, CrawlSummary, SourceFailure};
use crate::args::Args;
use crate::balance::stats::count_of;
use crate::balance::{SourceBalancePolicy, SourceBalanceRecord, SourceRunStats};
use crate::event::RawIntelEvent;
use crate::health::heal::failure_class;
use crate::health::record::constructors::record_of;
use crate::health::record::saturating_sub_i64;
use crate::health::record::status::{BackoffState, HealthStatus};
use crate::health::{SourceHealRecord, SourceHealthRecord};
use crate::registry::Source;
use crate::text::lowercase_of;
use vstd::prelude::*;

verus! {

/// One for a run that writes, zero for a dry run.
pub open spec fn written_if(dry_run: bool) -> int {
    if dry_run {
        0
    } else {
        1
    }
}

/// `after` is `before` with one more element that satisfies the caller's check.
pub open spec fn pushed<T>(before: Seq<T>, after: Seq<T>) -> bool {
    after.len() == before.len() + 1 && after.drop_last() == before
}

/// What `record_source_not_modified` does to the buffers and the summary.
pub open spec fn not_modified_recorded<'a>(
    args: &Args,
    balance_policy: SourceBalancePolicy,
    source: &Source,
    checked_at_ms: i64,
    observed_at_ms: i64,
    before: CrawlBuffers<'a>,
    after: CrawlBuffers<'a>,
    summary_before: CrawlSummary,
    summary_after: CrawlSummary,
) -> bool {
    &&& pushed(before.health_records@, after.health_records@)
    &&& record_of(
        after.health_records@.last(),
        source,
        checked_at_ms,
        observed_at_ms,
        HealthStatus::NotModified,
        0,
        0,
        0,
        saturating_sub_i64(observed_at_ms, checked_at_ms),
        None,
        BackoffState::Clear,
    )
    &&& pushed(before.balance_records@, after.balance_records@)
    &&& after.balance_records@.last().describes_idle(source, balance_policy, observed_at_ms)
    &&& *after.dedup == *before.dedup
    &&& after.raw_events == before.raw_events
    &&& after.heal_records == before.heal_records
    &&& after.balance_tracker == before.balance_tracker
    &&& summary_after == (CrawlSummary {
        sources_ok: (summary_before.sources_ok + 1) as usize,
        source_health_written: (summary_before.source_health_written + written_if(args.dry_run)) as usize,
        ..summary_before
    })
}

/// A source answered "not modified": it counts as ok, with a `not_modified`
/// health record and an idle balance record.
pub fn record_source_not_modified(
    args: &Args,
    balance_policy: SourceBalancePolicy,
    source: &Source,
    checked_at_ms: i64,
    observed_at_ms: i64,
    buffers: &mut CrawlBuffers<'_>,
    summary: &mut CrawlSummary,
)
    requires
        old(summary).sources_ok < usize::MAX,
        old(summary).source_health_written < usize::MAX,
    ensures
        not_modified_recorded(
            args,
            balance_policy,
            source,
            checked_at_ms,
            observed_at_ms,
            *old(buffers),
            *final(buffers),
            *old(summary),
            *final(summary),
        ),
{
    summary.sources_ok = summary.sources_ok + 1;
    let health = SourceHealthRecord::not_modified(source, checked_at_ms, observed_at_ms);
    buffers.health_records.push(health);
    let balance = SourceBalanceRecord::new(source, SourceRunStats::new(), balance_policy, observed_at_ms);
    buffers.balance_records.push(balance);
    summary.source_health_written = summary.source_health_written + if args.dry_run {
        0
    } else {
        1
    };
    proof {
        assert(buffers.health_records@.drop_last() =~= old(buffers).health_records@);
        assert(buffers.balance_records@.drop_last() =~= old(buffers).balance_records@);
    }
}

/// What `record_source_failure` does to the buffers and the summary.
pub open spec fn failure_recorded<'a>(
    args: &Args,
    balance_policy: SourceBalancePolicy,
    source: &Source,
    checked_at_ms: i64,
    observed_at_ms: i64,
    error: String,
    source_stats: SourceRunStats,
    before: CrawlBuffers<'a>,
    after: CrawlBuffers<'a>,
    summary_before: CrawlSummary,
    summary_after: CrawlSummary,
) -> bool {
    &&& pushed(before.health_records@, after.health_records@)
    &&& record_of(
        after.health_records@.last(),
        source,
        checked_at_ms,
        observed_at_ms,
        HealthStatus::Failed,
        0,
        0,
        0,
        saturating_sub_i64(observed_at_ms, checked_at_ms),
        after.health_records@.last().error,
        BackoffState::Scheduled,
    )
    &&& after.health_records@.last().error matches Some(e) && e@ == error@
    &&& pushed(before.balance_records@, after.balance_records@)
    &&& after.balance_records@.last().describes(
        source,
        source_stats,
        balance_policy,
        observed_at_ms,
    )
    &&& pushed(before.heal_records@, after.heal_records@)
    &&& ({
        let heal = after.heal_records@.last();
        &&& heal.source_id@ == source.source_id@
        &&& heal.observed_at_ms == observed_at_ms
        &&& heal.failure_type@ == failure_class(lowercase_of(error@))
        &&& heal.next_retry_at_ms == (match args.schedule_interval_ms {
            Some(interval) => Some(
                (observed_at_ms + #[verifier::truncate] (interval as i64)) as i64,
            ),
            None => None,
        })
    })
    &&& *after.dedup == *before.dedup
    &&& after.raw_events == before.raw_events
    &&& after.balance_tracker == before.balance_tracker
    &&& summary_after.failures@.len() == summary_before.failures@.len() + 1
    &&& summary_after.failures@.drop_last() == summary_before.failures@
    &&& summary_after.failures@.last().source_id@ == source.source_id@
    &&& summary_after.failures@.last().error@ == error@
    &&& summary_after == (CrawlSummary {
        sources_failed: (summary_before.sources_failed + 1) as usize,
        source_health_written: (summary_before.source_health_written + written_if(args.dry_run)) as usize,
        source_heal_written: (summary_before.source_heal_written + written_if(args.dry_run)) as usize,
        failures: summary_after.failures,
        ..summary_before
    })
}

/// A source failed: it counts as failed and is listed with its error, with a
/// `failed` health record, a balance record of its counters so far, and a heal
/// record that schedules a retry.
pub fn record_source_failure(
    args: &Args,
    balance_policy: SourceBalancePolicy,
    source: &Source,
    checked_at_ms: i64,
    observed_at_ms: i64,
    error: String,
    source_stats: SourceRunStats,
    buffers: &mut CrawlBuffers<'_>,
    summary: &mut CrawlSummary,
)
    requires
        old(summary).sources_failed < usize::MAX,
        old(summary).source_health_written < usize::MAX,
        old(summary).source_heal_written < usize::MAX,
        args.schedule_interval_ms matches Some(interval) ==> i64::MIN <= observed_at_ms + (
        #[verifier::truncate] (interval as i64)) <= i64::MAX,
    ensures
        failure_recorded(
            args,
            balance_policy,
            source,
            checked_at_ms,
            observed_at_ms,
            error,
            source_stats,
            *old(buffers),
            *final(buffers),
            *old(summary),
            *final(summary),
        ),
{
    summary.sources_failed = summary.sources_failed + 1;
    summary.failures.push(SourceFailure { source_id: source.source_id.clone(), error: error.clone() });
    let health = SourceHealthRecord::failed(source, checked_at_ms, observed_at_ms, error.clone());
    buffers.health_records.push(health);
    let ghost stats = source_stats;
    let balance = SourceBalanceRecord::new(source, source_stats, balance_policy, observed_at_ms);
    buffers.balance_records.push(balance);
    summary.source_health_written = summary.source_health_written + if args.dry_run {
        0
    } else {
        1
    };
    let heal = SourceHealRecord::retry_after_failure(
        source,
        observed_at_ms,
        error.as_str(),
        args.schedule_interval_ms,
    );
    buffers.heal_records.push(heal);
    summary.source_heal_written = summary.source_heal_written + if args.dry_run {
        0
    } else {
        1
    };
    proof {
        assert(buffers.health_records@.drop_last() =~= old(buffers).health_records@);
        assert(buffers.balance_records@.drop_last() =~= old(buffers).balance_records@);
        assert(buffers.heal_records@.drop_last() =~= old(buffers).heal_records@);
        assert(summary.failures@.drop_last() =~= old(summary).failures@);
    }
}

/// What `record_source_items` does to the buffers and the summary.
pub open spec fn items_recorded<'a>(
    args: &Args,
    balance_policy: SourceBalancePolicy,
    source: &Source,
    checked_at_ms: i64,
    observed_at_ms: i64,
    events: Vec<RawIntelEvent>,
    stats_before: SourceRunStats,
    stats_after: SourceRunStats,
    before: CrawlBuffers<'a>,
    after: CrawlBuffers<'a>,
    summary_before: CrawlSummary,
    summary_after: CrawlSummary,
) -> bool {
    &&& ({
        let s = append_all(
            append_start(
                (*before.dedup)@,
                before.balance_tracker.derivatives_emitted,
                before.balance_tracker.community_emitted,
                before.balance_tracker.category_emitted@,
                stats_before.suppression_reasons@,
            ),
            events@,
            args.dry_run,
            *source,
            balance_policy,
        );
        let raw_before = before.raw_events@;
        let raw_after = after.raw_events@;
        &&& (*after.dedup)@ == s.dedup
        &&& after.balance_tracker.derivatives_emitted == s.derivatives_emitted
        &&& after.balance_tracker.community_emitted == s.community_emitted
        &&& after.balance_tracker.category_emitted@ == s.category_emitted
        &&& raw_after.len() == raw_before.len() + s.kept.len()
        &&& forall|j: int| 0 <= j < raw_before.len() ==> raw_after[j] == raw_before[j]
        &&& forall|j: int|
            0 <= j < s.kept.len() ==> 0 <= #[trigger] s.kept[j].0 < events.len() && relabelled(
                events@[s.kept[j].0],
                raw_after[raw_before.len() + j],
                s.kept[j].1,
            )
        &&& stats_after.items_seen == events.len()
        &&& stats_after.suppression_reasons@ == s.reasons
        &&& stats_after.candidates_after_dedup == stats_before.candidates_after_dedup
            + s.candidates
        &&& stats_after.events_emitted == stats_before.events_emitted + s.emitted
        &&& stats_after.duplicates_skipped == stats_before.duplicates_skipped
            + s.duplicates
        &&& stats_after.suppressed_by_balance == stats_before.suppressed_by_balance
            + s.suppressed
        &&& summary_after == (CrawlSummary {
            sources_ok: (summary_before.sources_ok + 1) as usize,
            items_seen: (summary_before.items_seen + events.len()) as usize,
            events_skipped_duplicate: (summary_before.events_skipped_duplicate
                + s.duplicates) as usize,
            events_suppressed_by_balance: (summary_before.events_suppressed_by_balance
                + s.suppressed) as usize,
            source_health_written: (summary_before.source_health_written + written_if(
                args.dry_run,
            )) as usize,
            ..summary_before
        })
        &&& pushed(before.health_records@, after.health_records@)
        &&& record_of(
            after.health_records@.last(),
            source,
            checked_at_ms,
            observed_at_ms,
            if events.len() == 0 {
                HealthStatus::NoItems
            } else {
                HealthStatus::Succeeded
            },
            events.len(),
            s.written as usize,
            s.duplicates as usize,
            saturating_sub_i64(observed_at_ms, checked_at_ms),
            None,
            BackoffState::Clear,
        )
    })
    &&& stats_after.wf()
    &&& pushed(before.balance_records@, after.balance_records@)
    &&& after.balance_records@.last().describes(
        source,
        stats_after,
        balance_policy,
        observed_at_ms,
    )
    &&& after.heal_records == before.heal_records
}

/// A source returned items, as candidate events (one per item): it counts as
/// ok, its items are counted, its events go through dedup and the flood
/// controls, and it gets an `ok` (or `no_items`) health record and a balance
/// record of its counters.
pub fn record_source_items(
    args: &Args,
    balance_policy: SourceBalancePolicy,
    source: &Source,
    checked_at_ms: i64,
    observed_at_ms: i64,
    events: Vec<RawIntelEvent>,
    source_stats: &mut SourceRunStats,
    buffers: &mut CrawlBuffers<'_>,
    summary: &mut CrawlSummary,
)
    requires
        old(source_stats).wf(),
        old(source_stats).suppressed_by_balance + events.len() <= usize::MAX,
        old(source_stats).duplicates_skipped + events.len() <= usize::MAX,
        old(source_stats).candidates_after_dedup + events.len() <= usize::MAX,
        old(source_stats).events_emitted + events.len() <= usize::MAX,
        old(summary).events_skipped_duplicate + events.len() <= usize::MAX,
        old(summary).events_suppressed_by_balance + events.len() <= usize::MAX,
        old(summary).items_seen + events.len() <= usize::MAX,
        old(summary).sources_ok < usize::MAX,
        old(summary).source_health_written < usize::MAX,
        count_of(old(buffers).balance_tracker.category_emitted@, source.source_category@)
            + events.len() <= usize::MAX,
    ensures
        items_recorded(
            args,
            balance_policy,
            source,
            checked_at_ms,
            observed_at_ms,
            events,
            *old(source_stats),
            *final(source_stats),
            *old(buffers),
            *final(buffers),
            *old(summary),
            *final(summary),
        ),
{
    let source_items_seen = events.len();
    source_stats.items_seen = source_items_seen;
    summary.sources_ok = summary.sources_ok + 1;
    summary.items_seen = summary.items_seen + source_items_seen;
    let ghost health0 = buffers.health_records@;
    let ghost balance0 = buffers.balance_records@;
    let outcome = append_source_events(
        args,
        balance_policy,
        source,
        events,
        source_stats,
        buffers,
        summary,
    );
    let health = SourceHealthRecord::ok(
        source,
        checked_at_ms,
        observed_at_ms,
        source_items_seen,
        outcome.events_written,
        outcome.duplicates_skipped,
    );
    buffers.health_records.push(health);
    let stats_copy = source_stats.duplicate();
    let balance = SourceBalanceRecord::new(source, stats_copy, balance_policy, observed_at_ms);
    buffers.balance_records.push(balance);
    summary.source_health_written = summary.source_health_written + if args.dry_run {
        0
    } else {
        1
    };
    proof {
        assert(buffers.health_records@.drop_last() =~= health0);
        assert(buffers.balance_records@.drop_last() =~= balance0);
    }
}

} // verus!
