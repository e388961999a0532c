//! Raw intel events: the L0 record written for every new source item.
pub mod builder;
pub mod pointer;

use crate::numbers::parse_hex_u64;
use vstd::prelude::*;

pub use builder::build_raw_intel_event;
pub use pointer::{
    build_raw_intel_event_created_pointer, RawIntelEventCreatedPointer, RawIntelEventStorageRef,
};

verus! {

#[derive(Debug, Clone)]
pub struct RawIntelEvent {
    pub event_id: String,
    pub source_id: String,
    pub source_category: String,
    pub source_name: String,
    pub fetched_at_ms: i64,
    pub published_at_ms: Option<i64>,
    pub observed_at_ms: i64,
    pub language: String,
    pub title: String,
    pub body: String,
    pub url: String,
    pub author_or_channel: Option<String>,
    pub trust_tier: String,
    pub cadence_tier: String,
    pub content_hash: String,
    pub dedup_key: String,
    pub exact_source_key: String,
    pub canonical_url: String,
    pub canonical_url_hash: String,
    pub normalized_content_hash: String,
    pub simhash64: String,
    pub dedup_decision: String,
    pub duplicate_of_event_id: Option<String>,
    pub symbol_candidates: Vec<String>,
    pub event_category_hint: Option<String>,
    pub top50_relevance: String,
    pub content_kind: String,
    pub content_quality: String,
    pub content_quality_score: u8,
    pub source_quality: String,
    pub source_relevance_scope: String,
    pub direct_asset_count: usize,
    pub matched_asset_count: usize,
    pub historical_source_depth: String,
    pub backfill_window_start_ms: Option<i64>,
    pub backfill_window_end_ms: Option<i64>,
    pub source_time_range_verified: bool,
    pub schema_version: String,
}

/// The optional string's view.
pub open spec fn opt_view(o: Option<String>) -> Option<Seq<char>> {
    match o {
        Some(s) => Some(s@),
        None => None,
    }
}

impl RawIntelEvent {
    /// The 64-bit SimHash the event carries in hex, or 0 when it does not parse.
    pub open spec fn simhash_value(&self) -> u64 {
        match parse_hex_u64(self.simhash64@) {
            Some(v) => v,
            None => 0,
        }
    }

    pub fn event_id(&self) -> (r: &str)
        ensures
            r@ == self.event_id@,
    {
        self.event_id.as_str()
    }

    pub fn source_id(&self) -> (r: &str)
        ensures
            r@ == self.source_id@,
    {
        self.source_id.as_str()
    }

    pub fn source_category(&self) -> (r: &str)
        ensures
            r@ == self.source_category@,
    {
        self.source_category.as_str()
    }

    pub fn fetched_at_ms(&self) -> (r: i64)
        ensures
            r == self.fetched_at_ms,
    {
        self.fetched_at_ms
    }

    pub fn content_hash(&self) -> (r: &str)
        ensures
            r@ == self.content_hash@,
    {
        self.content_hash.as_str()
    }

    pub fn dedup_key(&self) -> (r: &str)
        ensures
            r@ == self.dedup_key@,
    {
        self.dedup_key.as_str()
    }

    pub fn exact_source_key(&self) -> (r: &str)
        ensures
            r@ == self.exact_source_key@,
    {
        self.exact_source_key.as_str()
    }

    pub fn canonical_url_hash(&self) -> (r: &str)
        ensures
            r@ == self.canonical_url_hash@,
    {
        self.canonical_url_hash.as_str()
    }

    pub fn normalized_content_hash(&self) -> (r: &str)
        ensures
            r@ == self.normalized_content_hash@,
    {
        self.normalized_content_hash.as_str()
    }

    /// The SimHash as a number; 0 when the stored hex does not parse.
    pub fn simhash64_value(&self) -> (r: u64)
        ensures
            r == self.simhash_value(),
    {
        let v = crate::text::chars_of(self.simhash64.as_str());
        match crate::numbers::parse_hex(v.as_slice()) {
            Some(x) => x,
            None => 0,
        }
    }

    pub fn dedup_decision(&self) -> (r: &str)
        ensures
            r@ == self.dedup_decision@,
    {
        self.dedup_decision.as_str()
    }

    pub fn duplicate_of_event_id(&self) -> (r: Option<&str>)
        ensures
            match r {
                Some(s) => self.duplicate_of_event_id matches Some(d) && s@ == d@,
                None => self.duplicate_of_event_id is None,
            },
    {
        match &self.duplicate_of_event_id {
            Some(s) => Some(s.as_str()),
            None => None,
        }
    }

    /// Records the dedup outcome; nothing else changes.
    pub fn set_dedup_outcome(&mut self, dedup_decision: &str, duplicate_of_event_id: Option<String>)
        ensures
            final(self).dedup_decision@ == dedup_decision@,
            final(self).duplicate_of_event_id == duplicate_of_event_id,
            *final(self) == (RawIntelEvent {
                dedup_decision: final(self).dedup_decision,
                duplicate_of_event_id: final(self).duplicate_of_event_id,
                ..*old(self)
            }),
    {
        self.dedup_decision = dedup_decision.to_owned();
        self.duplicate_of_event_id = duplicate_of_event_id;
    }
}

} // verus!
