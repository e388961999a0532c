//! The run summary and what one source contributed to it.
use vstd::prelude::*;

verus! {

/// What one source's events came to.
#[derive(Debug, Default)]
pub struct SourceOutcome {
    pub events_written: usize,
    pub duplicates_skipped: usize,
}

/// A source that failed, and why.
#[derive(Debug)]
pub struct SourceFailure {
    pub source_id: String,
    pub error: String,
}

#[derive(Debug)]
pub struct CrawlSummary {
    pub dry_run: bool,
    pub nats_publish_enabled: bool,
    pub sources_selected: usize,
    pub sources_ok: usize,
    pub sources_failed: usize,
    pub items_seen: usize,
    pub events_written: usize,
    pub events_published: usize,
    pub pointer_publish_pending: usize,
    pub events_skipped_duplicate: usize,
    pub events_suppressed_by_balance: usize,
    pub source_health_written: usize,
    pub source_heal_written: usize,
    pub source_coverage_written: usize,
    pub source_balance_written: usize,
    pub outbox_published_written: usize,
    pub outbox_pending_written: usize,
    pub manifest_written: usize,
    pub source_coverage_key: Option<String>,
    pub source_balance_key: Option<String>,
    pub outbox_published_key: Option<String>,
    pub outbox_pending_key: Option<String>,
    pub manifest_key: Option<String>,
    pub failures: Vec<SourceFailure>,
}

impl CrawlSummary {
    /// A summary of a run over `sources_selected` sources before any work.
    pub open spec fn is_fresh(self, sources_selected: usize, dry_run: bool, nats_publish_enabled: bool) -> bool {
        &&& self.dry_run == dry_run
        &&& self.nats_publish_enabled == nats_publish_enabled
        &&& self.sources_selected == sources_selected
        &&& self.sources_ok == 0
        &&& self.sources_failed == 0
        &&& self.items_seen == 0
        &&& self.events_written == 0
        &&& self.events_published == 0
        &&& self.pointer_publish_pending == 0
        &&& self.events_skipped_duplicate == 0
        &&& self.events_suppressed_by_balance == 0
        &&& self.source_health_written == 0
        &&& self.source_heal_written == 0
        &&& self.source_coverage_written == 0
        &&& self.source_balance_written == 0
        &&& self.outbox_published_written == 0
        &&& self.outbox_pending_written == 0
        &&& self.manifest_written == 0
        &&& self.source_coverage_key is None
        &&& self.source_balance_key is None
        &&& self.outbox_published_key is None
        &&& self.outbox_pending_key is None
        &&& self.manifest_key is None
        &&& self.failures@.len() == 0
    }

    pub fn new(sources_selected: usize, dry_run: bool, nats_publish_enabled: bool) -> (s: Self)
        ensures
            s.is_fresh(sources_selected, dry_run, nats_publish_enabled),
    {
        CrawlSummary {
            dry_run,
            nats_publish_enabled,
            sources_selected,
            sources_ok: 0,
            sources_failed: 0,
            items_seen: 0,
            events_written: 0,
            events_published: 0,
            pointer_publish_pending: 0,
            events_skipped_duplicate: 0,
            events_suppressed_by_balance: 0,
            source_health_written: 0,
            source_heal_written: 0,
            source_coverage_written: 0,
            source_balance_written: 0,
            outbox_published_written: 0,
            outbox_pending_written: 0,
            manifest_written: 0,
            source_coverage_key: None,
            source_balance_key: None,
            outbox_published_key: None,
            outbox_pending_key: None,
            manifest_key: None,
            failures: Vec::new(),
        }
    }
}

} // verus!
