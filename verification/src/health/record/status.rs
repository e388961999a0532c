//! The fetch status of a source and what it says about the source's health.
use vstd::prelude::*;

verus! {

#[derive(Debug, Clone, Copy, PartialEq, Eq)]
pub enum HealthStatus {
    Succeeded,
    NoItems,
    Failed,
    NotModified,
    SkippedBackoff,
    SkippedCadence,
}

impl HealthStatus {
    pub open spec fn label(self) -> Seq<char> {
        match self {
            HealthStatus::Succeeded => "ok"@,
            HealthStatus::NoItems => "no_items"@,
            HealthStatus::Failed => "failed"@,
            HealthStatus::NotModified => "not_modified"@,
            HealthStatus::SkippedBackoff => "skipped_backoff"@,
            HealthStatus::SkippedCadence => "skipped_cadence"@,
        }
    }

    /// Fetching, confirming nothing changed, or waiting for the cadence is
    /// healthy; an empty fetch or a backoff wait is degraded; a failure blocks.
    pub open spec fn level(self) -> Seq<char> {
        match self {
            HealthStatus::Succeeded | HealthStatus::NotModified | HealthStatus::SkippedCadence => "healthy"@,
            HealthStatus::NoItems | HealthStatus::SkippedBackoff => "degraded"@,
            HealthStatus::Failed => "blocked"@,
        }
    }

    pub fn from_items_seen(items_seen: usize) -> (s: Self)
        ensures
            s == (if items_seen == 0 {
                HealthStatus::NoItems
            } else {
                HealthStatus::Succeeded
            }),
    {
        if items_seen == 0 {
            HealthStatus::NoItems
        } else {
            HealthStatus::Succeeded
        }
    }

    pub fn as_str(self) -> (r: &'static str)
        ensures
            r@ == self.label(),
    {
        match self {
            HealthStatus::Succeeded => "ok",
            HealthStatus::NoItems => "no_items",
            HealthStatus::Failed => "failed",
            HealthStatus::NotModified => "not_modified",
            HealthStatus::SkippedBackoff => "skipped_backoff",
            HealthStatus::SkippedCadence => "skipped_cadence",
        }
    }

    pub fn health_level(self) -> (r: &'static str)
        ensures
            r@ == self.level(),
    {
        match self {
            HealthStatus::Succeeded | HealthStatus::NotModified | HealthStatus::SkippedCadence => "healthy",
            HealthStatus::NoItems | HealthStatus::SkippedBackoff => "degraded",
            HealthStatus::Failed => "blocked",
        }
    }
}

/// Law: a source that answered "not modified" or that waits for its cadence
/// is healthy, one that fetched nothing or waits out a backoff is degraded,
/// and one that failed is blocked.
pub proof fn lemma_health_levels()
    ensures
        HealthStatus::NotModified.level() == "healthy"@,
        HealthStatus::SkippedCadence.level() == "healthy"@,
        HealthStatus::Succeeded.level() == "healthy"@,
        HealthStatus::NoItems.level() == "degraded"@,
        HealthStatus::SkippedBackoff.level() == "degraded"@,
        HealthStatus::Failed.level() == "blocked"@,
{
}

#[derive(Debug, Clone, Copy, PartialEq, Eq)]
pub enum BackoffState {
    Clear,
    Scheduled,
    Active,
}

impl BackoffState {
    pub open spec fn label(self) -> Seq<char> {
        match self {
            BackoffState::Clear => "none"@,
            BackoffState::Scheduled => "scheduled"@,
            BackoffState::Active => "active"@,
        }
    }

    pub fn as_str(self) -> (r: &'static str)
        ensures
            r@ == self.label(),
    {
        match self {
            BackoffState::Clear => "none",
            BackoffState::Scheduled => "scheduled",
            BackoffState::Active => "active",
        }
    }
}

} // verus!
