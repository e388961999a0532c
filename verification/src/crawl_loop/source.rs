//! How one source's turn in a run is recorded.
pub mod record;
pub mod skip;

use super::{CrawlBuffers, CrawlSummary};
use crate::args::Args;
use crate::balance::stats::count_of;
use crate::balance::{SourceBalancePolicy, SourceRunStats};
use crate::event::RawIntelEvent;
use crate::registry::Source;
use record::{
    failure_recorded, items_recorded, not_modified_recorded, record_source_failure,
    record_source_items, record_source_not_modified,
};
use vstd::prelude::*;

verus! {

/// How fetching a source ended, with its items already turned into candidate
/// events.
pub enum FetchOutcome {
    Fetched(Vec<RawIntelEvent>),
    NotModified,
    Failed(String),
}

/// Records a fetched source's outcome: its events, a "not modified" answer, or
/// a failure (with the source's counters so far).
pub fn record_fetch_outcome(
    args: &Args,
    balance_policy: SourceBalancePolicy,
    source: &Source,
    checked_at_ms: i64,
    observed_at_ms: i64,
    outcome: FetchOutcome,
    source_stats: &mut SourceRunStats,
    buffers: &mut CrawlBuffers<'_>,
    summary: &mut CrawlSummary,
)
    requires
        old(summary).sources_ok < usize::MAX,
        old(summary).sources_failed < usize::MAX,
        old(summary).source_health_written < usize::MAX,
        old(summary).source_heal_written < usize::MAX,
        args.schedule_interval_ms matches Some(interval) ==> i64::MIN <= observed_at_ms + (
        #[verifier::truncate] (interval as i64)) <= i64::MAX,
        outcome matches FetchOutcome::Fetched(events) ==> {
            &&& old(source_stats).wf()
            &&& old(source_stats).suppressed_by_balance + events.len() <= usize::MAX
            &&& old(source_stats).duplicates_skipped + events.len() <= usize::MAX
            &&& old(source_stats).candidates_after_dedup + events.len() <= usize::MAX
            &&& old(source_stats).events_emitted + events.len() <= usize::MAX
            &&& old(summary).events_skipped_duplicate + events.len() <= usize::MAX
            &&& old(summary).events_suppressed_by_balance + events.len() <= usize::MAX
            &&& old(summary).items_seen + events.len() <= usize::MAX
            &&& count_of(old(buffers).balance_tracker.category_emitted@, source.source_category@)
                + events.len() <= usize::MAX
        },
    ensures
        match outcome {
            FetchOutcome::Fetched(events) => items_recorded(
                args,
                balance_policy,
                source,
                checked_at_ms,
                observed_at_ms,
                events,
                *old(source_stats),
                *final(source_stats),
                *old(buffers),
                *final(buffers),
                *old(summary),
                *final(summary),
            ),
            FetchOutcome::NotModified => {
                &&& not_modified_recorded(
                    args,
                    balance_policy,
                    source,
                    checked_at_ms,
                    observed_at_ms,
                    *old(buffers),
                    *final(buffers),
                    *old(summary),
                    *final(summary),
                )
                &&& *final(source_stats) == *old(source_stats)
            },
            FetchOutcome::Failed(error) => {
                &&& failure_recorded(
                    args,
                    balance_policy,
                    source,
                    checked_at_ms,
                    observed_at_ms,
                    error,
                    *old(source_stats),
                    *old(buffers),
                    *final(buffers),
                    *old(summary),
                    *final(summary),
                )
                &&& *final(source_stats) == *old(source_stats)
            },
        },
{
    match outcome {
        FetchOutcome::Fetched(events) => {
            record_source_items(
                args,
                balance_policy,
                source,
                checked_at_ms,
                observed_at_ms,
                events,
                source_stats,
                buffers,
                summary,
            );
        },
        FetchOutcome::NotModified => {
            record_source_not_modified(
                args,
                balance_policy,
                source,
                checked_at_ms,
                observed_at_ms,
                buffers,
                summary,
            );
        },
        FetchOutcome::Failed(error) => {
            let stats = source_stats.duplicate();
            record_source_failure(
                args,
                balance_policy,
                source,
                checked_at_ms,
                observed_at_ms,
                error,
                stats,
                buffers,
                summary,
            );
        },
    }
}

} // verus!
