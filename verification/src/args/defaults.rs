//! Default values of the command-line options.
use vstd::prelude::*;

verus! {

pub const DEFAULT_SOURCE_REGISTRY_PATH: &'static str =
    "/opt/nangman-crypto/intel-crawl/config/source-registry.rss-seed.v1.json";

pub const DEFAULT_NATS_SUBJECT: &'static str = "raw_intel_event.created";

pub const DEFAULT_NATS_STREAM: &'static str = "RAW_INTEL";

pub const DEFAULT_OBJECT_STORE_BUCKET: &'static str = "<bucket-name>";

pub const DEFAULT_OBJECT_STORE_REGION: &'static str = "ap-northeast-2";

pub const DEFAULT_DEDUP_LOOKBACK_DAYS: u16 = 14;

pub const DEFAULT_CHUNK_MAX_RECORDS: usize = 1000;

pub const DEFAULT_DERIVATIVES_MAX_EVENTS_PER_RUN: usize = 12;

pub const DEFAULT_DERIVATIVES_MAX_EVENTS_PER_SOURCE: usize = 6;

pub const DEFAULT_COMMUNITY_MAX_EVENTS_PER_RUN: usize = 30;

pub const DEFAULT_COMMUNITY_MAX_EVENTS_PER_SOURCE: usize = 5;

pub const DEFAULT_MAX_ITEMS_PER_SOURCE: usize = 50;

} // verus!
