//! Command-line arguments of the crawler: defaults, parsing and validation.
pub mod defaults;
pub mod help;
pub mod parse;
pub mod types;
pub mod validation;

pub use defaults::{
    DEFAULT_SOURCE_REGISTRY_PATH, DEFAULT_NATS_SUBJECT, DEFAULT_NATS_STREAM, DEFAULT_OBJECT_STORE_BUCKET, DEFAULT_OBJECT_STORE_REGION, DEFAULT_DEDUP_LOOKBACK_DAYS, DEFAULT_CHUNK_MAX_RECORDS, DEFAULT_DERIVATIVES_MAX_EVENTS_PER_RUN, DEFAULT_DERIVATIVES_MAX_EVENTS_PER_SOURCE, DEFAULT_COMMUNITY_MAX_EVENTS_PER_RUN, DEFAULT_COMMUNITY_MAX_EVENTS_PER_SOURCE, DEFAULT_MAX_ITEMS_PER_SOURCE,
};
pub use types::{Args, ArgsView, ObjectStoreConfig};
