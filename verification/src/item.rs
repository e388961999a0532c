//! An item read from a source, before it becomes a raw intel event.
use vstd::prelude::*;

verus! {

/// One feed item as a fetcher hands it over.
#[derive(Debug, Clone, PartialEq, Eq)]
pub struct FeedItem {
    pub id: Option<String>,
    pub title: String,
    pub body: String,
    pub url: String,
    pub author: Option<String>,
    pub published_at: Option<String>,
    pub historical_source_depth: Option<String>,
    pub backfill_window_start_ms: Option<i64>,
    pub backfill_window_end_ms: Option<i64>,
    pub source_time_range_verified: Option<bool>,
}

} // verus!
