//! The per-source flood-control diagnostic record of a run.
use super::classification::{
    is_community, is_community_source, is_derivatives_snapshot, is_derivatives_snapshot_source,
};
use super::tracker::{suppression_reason, SourceBalanceTracker};
use super::{SourceBalancePolicy, SourceRunStats};
use crate::registry::Source;
use crate::str_map::StrMap;
use vstd::prelude::*;

verus! {

/// The balance class named in the record.
pub open spec fn balance_class_of(source: &Source) -> Seq<char> {
    if is_derivatives_snapshot(source) {
        "derivatives_snapshot"@
    } else if is_community(source) {
        "community_reaction"@
    } else {
        "standard_source"@
    }
}

/// Law: every source of the social category is a community-reaction source,
/// whatever its fetch method or adapter: it is classed `community_reaction`,
/// fetches at most the per-source community cap of items, is suppressed with
/// `community_reaction_run_cap` exactly when the community events admitted so
/// far have reached the per-run cap (never by the derivatives cap), and each of
/// its admitted events counts as one more community event.
pub proof fn lemma_social_sources_are_community(
    source: &Source,
    policy: SourceBalancePolicy,
    requested_limit: usize,
    derivatives_emitted: usize,
    community_emitted: usize,
    before: SourceBalanceTracker,
    after: SourceBalanceTracker,
)
    requires
        source.source_category@ == "social"@,
    ensures
        balance_class_of(source) == "community_reaction"@,
        policy.item_limit(source, requested_limit) == (if requested_limit
            <= policy.community_max_events_per_source {
            requested_limit
        } else {
            policy.community_max_events_per_source
        }),
        suppression_reason(derivatives_emitted, community_emitted, source, policy) == (if community_emitted
            >= policy.community_max_events_per_run {
            Some("community_reaction_run_cap"@)
        } else {
            None::<Seq<char>>
        }),
        before.after_admit(source, after) ==> after.community_emitted == before.community_emitted
            + 1 && after.derivatives_emitted == before.derivatives_emitted,
{
    reveal_strlit("social");
    reveal_strlit("funding");
    assert("social"@.len() != "funding"@.len());
    assert(!is_derivatives_snapshot(source));
    assert(is_community(source));
}

#[derive(Debug)]
pub struct SourceBalanceRecord {
    pub schema_version: String,
    pub observed_at_ms: i64,
    pub source_id: String,
    pub source_category: String,
    pub fetch_method: String,
    pub adapter: Option<String>,
    pub balance_class: String,
    pub items_seen: usize,
    pub candidates_after_dedup: usize,
    pub events_emitted: usize,
    pub duplicates_skipped: usize,
    pub suppressed_by_balance: usize,
    pub suppression_reasons: StrMap<usize>,
    pub derivatives_max_events_per_run: usize,
    pub derivatives_max_events_per_source: usize,
    pub configured_derivatives_max_events_per_run: usize,
    pub configured_derivatives_max_events_per_source: usize,
    pub community_max_events_per_run: usize,
    pub community_max_events_per_source: usize,
}

impl SourceBalanceRecord {
    /// The record's identity, time and caps are those of `source`, `policy` and
    /// `observed_at_ms`.
    pub open spec fn identifies(
        self,
        source: &Source,
        policy: SourceBalancePolicy,
        observed_at_ms: i64,
    ) -> bool {
        &&& self.schema_version@ == "source_balance_v1"@
        &&& self.observed_at_ms == observed_at_ms
        &&& self.source_id@ == source.source_id@
        &&& self.source_category@ == source.source_category@
        &&& self.fetch_method@ == source.fetch_method@
        &&& self.adapter == source.adapter
        &&& self.balance_class@ == balance_class_of(source)
        &&& self.derivatives_max_events_per_run == policy.derivatives_run_cap()
        &&& self.derivatives_max_events_per_source == policy.derivatives_source_cap()
        &&& self.configured_derivatives_max_events_per_run == policy.derivatives_max_events_per_run
        &&& self.configured_derivatives_max_events_per_source
            == policy.derivatives_max_events_per_source
        &&& self.community_max_events_per_run == policy.community_max_events_per_run
        &&& self.community_max_events_per_source == policy.community_max_events_per_source
    }

    /// The record describes `source` with the counters `stats`, under `policy`,
    /// observed at `observed_at_ms`.
    pub open spec fn describes(
        self,
        source: &Source,
        stats: SourceRunStats,
        policy: SourceBalancePolicy,
        observed_at_ms: i64,
    ) -> bool {
        &&& self.identifies(source, policy, observed_at_ms)
        &&& self.items_seen == stats.items_seen
        &&& self.candidates_after_dedup == stats.candidates_after_dedup
        &&& self.events_emitted == stats.events_emitted
        &&& self.duplicates_skipped == stats.duplicates_skipped
        &&& self.suppressed_by_balance == stats.suppressed_by_balance
        &&& self.suppression_reasons@ == stats.suppression_reasons@
    }

    /// The record of a source that produced no events: every counter zero.
    pub open spec fn describes_idle(
        self,
        source: &Source,
        policy: SourceBalancePolicy,
        observed_at_ms: i64,
    ) -> bool {
        &&& self.identifies(source, policy, observed_at_ms)
        &&& self.items_seen == 0
        &&& self.candidates_after_dedup == 0
        &&& self.events_emitted == 0
        &&& self.duplicates_skipped == 0
        &&& self.suppressed_by_balance == 0
        &&& self.suppression_reasons@ == Seq::<(Seq<char>, usize)>::empty()
    }

    /// The record of one source: its identity, its run counters, and both the
    /// caps in force and the configured caps.
    pub fn new(
        source: &Source,
        stats: SourceRunStats,
        policy: SourceBalancePolicy,
        observed_at_ms: i64,
    ) -> (r: Self)
        ensures
            r.describes(source, stats, policy, observed_at_ms),
    {
        let balance_class = if is_derivatives_snapshot_source(source) {
            "derivatives_snapshot"
        } else if is_community_source(source) {
            "community_reaction"
        } else {
            "standard_source"
        };
        SourceBalanceRecord {
            schema_version: "source_balance_v1".to_owned(),
            observed_at_ms,
            source_id: source.source_id.clone(),
            source_category: source.source_category.clone(),
            fetch_method: source.fetch_method.clone(),
            adapter: source.adapter.clone(),
            balance_class: balance_class.to_owned(),
            items_seen: stats.items_seen,
            candidates_after_dedup: stats.candidates_after_dedup,
            events_emitted: stats.events_emitted,
            duplicates_skipped: stats.duplicates_skipped,
            suppressed_by_balance: stats.suppressed_by_balance,
            suppression_reasons: stats.suppression_reasons,
            derivatives_max_events_per_run: policy.effective_derivatives_max_events_per_run(),
            derivatives_max_events_per_source: policy.effective_derivatives_max_events_per_source(),
            configured_derivatives_max_events_per_run: policy.derivatives_max_events_per_run,
            configured_derivatives_max_events_per_source: policy.derivatives_max_events_per_source,
            community_max_events_per_run: policy.community_max_events_per_run,
            community_max_events_per_source: policy.community_max_events_per_source,
        }
    }
}

} // verus!
