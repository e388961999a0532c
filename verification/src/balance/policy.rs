//! Configured flood-control caps and the safety ceilings they are clamped to.
use super::classification::{
    is_community, is_community_source, is_derivatives_snapshot, is_derivatives_snapshot_source,
};
use crate::registry::Source;
use vstd::prelude::*;

verus! {

/// Ceiling on live derivatives snapshot events per run, whatever is configured.
pub const DERIVATIVES_SAFETY_MAX_EVENTS_PER_RUN: usize = 12;

/// Ceiling on live derivatives snapshot events per source, whatever is configured.
pub const DERIVATIVES_SAFETY_MAX_EVENTS_PER_SOURCE: usize = 6;

pub open spec fn min_usize(a: usize, b: usize) -> usize {
    if a <= b {
        a
    } else {
        b
    }
}

#[derive(Debug, Clone, Copy, PartialEq, Eq)]
pub struct SourceBalancePolicy {
    pub derivatives_max_events_per_run: usize,
    pub derivatives_max_events_per_source: usize,
    pub community_max_events_per_run: usize,
    pub community_max_events_per_source: usize,
}

impl SourceBalancePolicy {
    /// The per-run derivatives cap in force: the configured one, clamped to 12.
    pub open spec fn derivatives_run_cap(self) -> usize {
        min_usize(self.derivatives_max_events_per_run, DERIVATIVES_SAFETY_MAX_EVENTS_PER_RUN)
    }

    /// The per-source derivatives cap in force: the configured one, clamped to 6.
    pub open spec fn derivatives_source_cap(self) -> usize {
        min_usize(
            self.derivatives_max_events_per_source,
            DERIVATIVES_SAFETY_MAX_EVENTS_PER_SOURCE,
        )
    }

    /// How many items a source may fetch in one run.
    pub open spec fn item_limit(self, source: &Source, requested_limit: usize) -> usize {
        if is_derivatives_snapshot(source) {
            min_usize(requested_limit, self.derivatives_source_cap())
        } else if is_community(source) {
            min_usize(requested_limit, self.community_max_events_per_source)
        } else {
            requested_limit
        }
    }

    pub fn effective_derivatives_max_events_per_run(&self) -> (r: usize)
        ensures
            r == self.derivatives_run_cap(),
            r <= DERIVATIVES_SAFETY_MAX_EVENTS_PER_RUN,
            r <= self.derivatives_max_events_per_run,
    {
        if self.derivatives_max_events_per_run <= DERIVATIVES_SAFETY_MAX_EVENTS_PER_RUN {
            self.derivatives_max_events_per_run
        } else {
            DERIVATIVES_SAFETY_MAX_EVENTS_PER_RUN
        }
    }

    pub fn effective_derivatives_max_events_per_source(&self) -> (r: usize)
        ensures
            r == self.derivatives_source_cap(),
            r <= DERIVATIVES_SAFETY_MAX_EVENTS_PER_SOURCE,
            r <= self.derivatives_max_events_per_source,
    {
        if self.derivatives_max_events_per_source <= DERIVATIVES_SAFETY_MAX_EVENTS_PER_SOURCE {
            self.derivatives_max_events_per_source
        } else {
            DERIVATIVES_SAFETY_MAX_EVENTS_PER_SOURCE
        }
    }

    pub fn effective_item_limit(&self, source: &Source, requested_limit: usize) -> (r: usize)
        ensures
            r == self.item_limit(source, requested_limit),
            r <= requested_limit,
    {
        if is_derivatives_snapshot_source(source) {
            let cap = self.effective_derivatives_max_events_per_source();
            if requested_limit <= cap {
                requested_limit
            } else {
                cap
            }
        } else if is_community_source(source) {
            if requested_limit <= self.community_max_events_per_source {
                requested_limit
            } else {
                self.community_max_events_per_source
            }
        } else {
            requested_limit
        }
    }
}

} // verus!
