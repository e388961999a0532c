//! The parsed arguments and their defaults.
use super::defaults::{
    DEFAULT_SOURCE_REGISTRY_PATH, DEFAULT_NATS_SUBJECT, DEFAULT_NATS_STREAM, DEFAULT_OBJECT_STORE_BUCKET, DEFAULT_OBJECT_STORE_REGION, DEFAULT_DEDUP_LOOKBACK_DAYS, DEFAULT_CHUNK_MAX_RECORDS, DEFAULT_DERIVATIVES_MAX_EVENTS_PER_RUN, DEFAULT_DERIVATIVES_MAX_EVENTS_PER_SOURCE, DEFAULT_COMMUNITY_MAX_EVENTS_PER_RUN, DEFAULT_COMMUNITY_MAX_EVENTS_PER_SOURCE, DEFAULT_MAX_ITEMS_PER_SOURCE,
};
use vstd::prelude::*;

verus! {

/// Where raw events are stored.
#[derive(Debug, Clone, PartialEq, Eq)]
pub struct ObjectStoreConfig {
    pub bucket: String,
    pub region: String,
}

/// The crawler's options. The registry path is kept as text; it is always
/// absolute (it starts with `/`).
#[derive(Debug, Clone, PartialEq, Eq)]
pub struct Args {
    pub source_registry: String,
    pub max_items_per_source: usize,
    pub schedule_interval_ms: Option<u64>,
    pub dry_run: bool,
    pub source_id: Option<String>,
    pub nats_url: Option<String>,
    pub nats_subject: String,
    pub nats_stream: String,
    pub object_store: ObjectStoreConfig,
    pub dedup_lookback_days: u16,
    pub chunk_max_records: usize,
    pub derivatives_max_events_per_run: usize,
    pub derivatives_max_events_per_source: usize,
    pub community_max_events_per_run: usize,
    pub community_max_events_per_source: usize,
    pub backfill_start_ms: Option<i64>,
    pub backfill_end_ms: Option<i64>,
    pub replay_pending_outbox: bool,
}

/// The options with every text as its characters.
pub struct ArgsView {
    pub source_registry: Seq<char>,
    pub max_items_per_source: usize,
    pub schedule_interval_ms: Option<u64>,
    pub dry_run: bool,
    pub source_id: Option<Seq<char>>,
    pub nats_url: Option<Seq<char>>,
    pub nats_subject: Seq<char>,
    pub nats_stream: Seq<char>,
    pub bucket: Seq<char>,
    pub region: Seq<char>,
    pub dedup_lookback_days: u16,
    pub chunk_max_records: usize,
    pub derivatives_max_events_per_run: usize,
    pub derivatives_max_events_per_source: usize,
    pub community_max_events_per_run: usize,
    pub community_max_events_per_source: usize,
    pub backfill_start_ms: Option<i64>,
    pub backfill_end_ms: Option<i64>,
    pub replay_pending_outbox: bool,
}

pub open spec fn opt_string_view(o: Option<String>) -> Option<Seq<char>> {
    match o {
        Some(s) => Some(s@),
        None => None,
    }
}

impl View for Args {
    type V = ArgsView;

    open spec fn view(&self) -> ArgsView {
        ArgsView {
            source_registry: self.source_registry@,
            max_items_per_source: self.max_items_per_source,
            schedule_interval_ms: self.schedule_interval_ms,
            dry_run: self.dry_run,
            source_id: opt_string_view(self.source_id),
            nats_url: opt_string_view(self.nats_url),
            nats_subject: self.nats_subject@,
            nats_stream: self.nats_stream@,
            bucket: self.object_store.bucket@,
            region: self.object_store.region@,
            dedup_lookback_days: self.dedup_lookback_days,
            chunk_max_records: self.chunk_max_records,
            derivatives_max_events_per_run: self.derivatives_max_events_per_run,
            derivatives_max_events_per_source: self.derivatives_max_events_per_source,
            community_max_events_per_run: self.community_max_events_per_run,
            community_max_events_per_source: self.community_max_events_per_source,
            backfill_start_ms: self.backfill_start_ms,
            backfill_end_ms: self.backfill_end_ms,
            replay_pending_outbox: self.replay_pending_outbox,
        }
    }
}

/// The options when none is given.
pub open spec fn default_args() -> ArgsView {
    ArgsView {
        source_registry: DEFAULT_SOURCE_REGISTRY_PATH@,
        max_items_per_source: DEFAULT_MAX_ITEMS_PER_SOURCE,
        schedule_interval_ms: None,
        dry_run: false,
        source_id: None,
        nats_url: None,
        nats_subject: DEFAULT_NATS_SUBJECT@,
        nats_stream: DEFAULT_NATS_STREAM@,
        bucket: DEFAULT_OBJECT_STORE_BUCKET@,
        region: DEFAULT_OBJECT_STORE_REGION@,
        dedup_lookback_days: DEFAULT_DEDUP_LOOKBACK_DAYS,
        chunk_max_records: DEFAULT_CHUNK_MAX_RECORDS,
        derivatives_max_events_per_run: DEFAULT_DERIVATIVES_MAX_EVENTS_PER_RUN,
        derivatives_max_events_per_source: DEFAULT_DERIVATIVES_MAX_EVENTS_PER_SOURCE,
        community_max_events_per_run: DEFAULT_COMMUNITY_MAX_EVENTS_PER_RUN,
        community_max_events_per_source: DEFAULT_COMMUNITY_MAX_EVENTS_PER_SOURCE,
        backfill_start_ms: None,
        backfill_end_ms: None,
        replay_pending_outbox: false,
    }
}

impl Args {
    pub fn with_defaults() -> (a: Self)
        ensures
            a@ == default_args(),
    {
        Args {
            source_registry: DEFAULT_SOURCE_REGISTRY_PATH.to_owned(),
            max_items_per_source: DEFAULT_MAX_ITEMS_PER_SOURCE,
            schedule_interval_ms: None,
            dry_run: false,
            source_id: None,
            nats_url: None,
            nats_subject: DEFAULT_NATS_SUBJECT.to_owned(),
            nats_stream: DEFAULT_NATS_STREAM.to_owned(),
            object_store: ObjectStoreConfig {
                bucket: DEFAULT_OBJECT_STORE_BUCKET.to_owned(),
                region: DEFAULT_OBJECT_STORE_REGION.to_owned(),
            },
            dedup_lookback_days: DEFAULT_DEDUP_LOOKBACK_DAYS,
            chunk_max_records: DEFAULT_CHUNK_MAX_RECORDS,
            derivatives_max_events_per_run: DEFAULT_DERIVATIVES_MAX_EVENTS_PER_RUN,
            derivatives_max_events_per_source: DEFAULT_DERIVATIVES_MAX_EVENTS_PER_SOURCE,
            community_max_events_per_run: DEFAULT_COMMUNITY_MAX_EVENTS_PER_RUN,
            community_max_events_per_source: DEFAULT_COMMUNITY_MAX_EVENTS_PER_SOURCE,
            backfill_start_ms: None,
            backfill_end_ms: None,
            replay_pending_outbox: false,
        }
    }
}

} // verus!
