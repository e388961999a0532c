//! Run-wide admission of events under the flood-control caps.
use super::classification::{
    is_community, is_community_source, is_derivatives_snapshot, is_derivatives_snapshot_source,
};
use super::stats::count_of;
use super::SourceBalancePolicy;
use crate::registry::Source;
use crate::str_map::{upsert, StrMap};
use vstd::prelude::*;

verus! {

/// Whether an event may be emitted, and why not.
#[derive(Debug, Clone, PartialEq, Eq)]
pub enum Admission {
    Admit,
    Suppress { reason: String },
}

/// Counts of events admitted so far in this run.
#[derive(Debug)]
pub struct SourceBalanceTracker {
    pub derivatives_emitted: usize,
    pub community_emitted: usize,
    pub category_emitted: StrMap<usize>,
}

pub open spec fn is_suppressed_with(a: Admission, reason: Seq<char>) -> bool {
    match a {
        Admission::Suppress { reason: r } => r@ == reason,
        Admission::Admit => false,
    }
}

/// The reason an event of `source` would be suppressed, given the events of
/// each capped class admitted so far, if it would be.
pub open spec fn suppression_reason(
    derivatives_emitted: usize,
    community_emitted: usize,
    source: &Source,
    policy: SourceBalancePolicy,
) -> Option<Seq<char>> {
    if is_derivatives_snapshot(source) && derivatives_emitted >= policy.derivatives_run_cap() {
        Some("derivatives_snapshot_run_cap"@)
    } else if !is_derivatives_snapshot(source) && is_community(source) && community_emitted
        >= policy.community_max_events_per_run {
        Some("community_reaction_run_cap"@)
    } else {
        None
    }
}

impl SourceBalanceTracker {
    /// A tracker that has admitted nothing.
    pub fn new() -> (t: Self)
        ensures
            t.derivatives_emitted == 0,
            t.community_emitted == 0,
            t.category_emitted@ == Seq::<(Seq<char>, usize)>::empty(),
    {
        SourceBalanceTracker {
            derivatives_emitted: 0,
            community_emitted: 0,
            category_emitted: StrMap::new(),
        }
    }

    /// The tracker after admitting one event of `source`.
    pub open spec fn after_admit(self, source: &Source, final_: Self) -> bool {
        &&& final_.derivatives_emitted == self.derivatives_emitted + (if is_derivatives_snapshot(
            source,
        ) {
            1int
        } else {
            0int
        })
        &&& final_.community_emitted == self.community_emitted + (if !is_derivatives_snapshot(
            source,
        ) && is_community(source) {
            1int
        } else {
            0int
        })
        &&& final_.category_emitted@ == upsert(
            self.category_emitted@,
            source.source_category@,
            (count_of(self.category_emitted@, source.source_category@) + 1) as usize,
        )
    }

    /// Admits one event of `source` unless it would exceed a cap in force:
    /// live derivatives snapshots are capped at the clamped per-run cap and
    /// community reactions at the configured per-run cap; other sources are
    /// always admitted. A suppressed event changes no count.
    pub fn admit_event(&mut self, source: &Source, policy: SourceBalancePolicy) -> (r: Admission)
        requires
            count_of(old(self).category_emitted@, source.source_category@) < usize::MAX,
        ensures
            is_derivatives_snapshot(source) && old(self).derivatives_emitted
                >= policy.derivatives_run_cap() ==> is_suppressed_with(
                r,
                "derivatives_snapshot_run_cap"@,
            ) && *final(self) == *old(self),
            !is_derivatives_snapshot(source) && is_community(source)
                && old(self).community_emitted >= policy.community_max_events_per_run
                ==> is_suppressed_with(r, "community_reaction_run_cap"@) && *final(self)
                == *old(self),
            r is Admit <==> !(is_derivatives_snapshot(source) && old(self).derivatives_emitted
                >= policy.derivatives_run_cap()) && !(!is_derivatives_snapshot(source)
                && is_community(source) && old(self).community_emitted
                >= policy.community_max_events_per_run),
            r is Admit ==> old(self).after_admit(source, *final(self)),
            old(self).derivatives_emitted <= policy.derivatives_run_cap()
                ==> final(self).derivatives_emitted <= policy.derivatives_run_cap(),
            old(self).community_emitted <= policy.community_max_events_per_run
                ==> final(self).community_emitted <= policy.community_max_events_per_run,
    {
        if is_derivatives_snapshot_source(source) {
            if self.derivatives_emitted >= policy.effective_derivatives_max_events_per_run() {
                return Admission::Suppress { reason: "derivatives_snapshot_run_cap".to_owned() };
            }
            self.derivatives_emitted = self.derivatives_emitted + 1;
        } else if is_community_source(source) {
            if self.community_emitted >= policy.community_max_events_per_run {
                return Admission::Suppress { reason: "community_reaction_run_cap".to_owned() };
            }
            self.community_emitted = self.community_emitted + 1;
        }
        self.category_emitted.increment(source.source_category.clone());
        Admission::Admit
    }
}

impl Default for SourceBalanceTracker {
    fn default() -> (t: Self)
        ensures
            t.derivatives_emitted == 0,
            t.community_emitted == 0,
            t.category_emitted@ == Seq::<(Seq<char>, usize)>::empty(),
    {
        SourceBalanceTracker::new()
    }
}

} // verus!
