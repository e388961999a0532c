//! The pointer message published after a raw event is stored.
use super::RawIntelEvent;
use vstd::prelude::*;

verus! {

/// Where a stored raw event lives: one JSONL record of an object.
#[derive(Debug, Clone, PartialEq, Eq)]
pub struct RawIntelEventStorageRef {
    pub kind: String,
    pub endpoint_alias: String,
    pub bucket: String,
    pub key: String,
    pub line_number: usize,
    pub byte_offset: usize,
    pub byte_length: usize,
    pub content_sha256: String,
}

/// The `raw_intel_event_created_v2` message.
#[derive(Debug, Clone)]
pub struct RawIntelEventCreatedPointer {
    pub schema_version: String,
    pub event_id: String,
    pub source_id: String,
    pub source_category: String,
    pub fetched_at_ms: i64,
    pub published_at_ms: Option<i64>,
    pub created_at_ms: i64,
    pub content_hash: String,
    pub dedup_key: String,
    pub dedup_decision: String,
    pub duplicate_of_event_id: Option<String>,
    pub symbol_candidates: Vec<String>,
    pub top50_relevance: String,
    pub storage_ref: RawIntelEventStorageRef,
}

impl RawIntelEventCreatedPointer {
    pub fn event_id(&self) -> (r: &str)
        ensures
            r@ == self.event_id@,
    {
        self.event_id.as_str()
    }
}

/// The pointer of a stored event: the event's identity and dedup outcome, and
/// where it is stored.
pub fn build_raw_intel_event_created_pointer(
    event: &RawIntelEvent,
    storage_ref: RawIntelEventStorageRef,
    created_at_ms: i64,
) -> (p: RawIntelEventCreatedPointer)
    ensures
        p.schema_version@ == "raw_intel_event_created_v2"@,
        p.event_id@ == event.event_id@,
        p.source_id@ == event.source_id@,
        p.source_category@ == event.source_category@,
        p.fetched_at_ms == event.fetched_at_ms,
        p.published_at_ms == event.published_at_ms,
        p.created_at_ms == created_at_ms,
        p.content_hash@ == event.content_hash@,
        p.dedup_key@ == event.dedup_key@,
        p.dedup_decision@ == event.dedup_decision@,
        p.duplicate_of_event_id == event.duplicate_of_event_id,
        p.symbol_candidates@ == event.symbol_candidates@,
        p.top50_relevance@ == event.top50_relevance@,
        p.storage_ref == storage_ref,
{
    RawIntelEventCreatedPointer {
        schema_version: "raw_intel_event_created_v2".to_owned(),
        event_id: event.event_id.clone(),
        source_id: event.source_id.clone(),
        source_category: event.source_category.clone(),
        fetched_at_ms: event.fetched_at_ms,
        published_at_ms: event.published_at_ms,
        created_at_ms,
        content_hash: event.content_hash.clone(),
        dedup_key: event.dedup_key.clone(),
        dedup_decision: event.dedup_decision.clone(),
        duplicate_of_event_id: event.duplicate_of_event_id.clone(),
        symbol_candidates: clone_strings(&event.symbol_candidates),
        top50_relevance: event.top50_relevance.clone(),
        storage_ref,
    }
}

/// A copy of a vector of strings.
pub fn clone_strings(v: &Vec<String>) -> (r: Vec<String>)
    ensures
        r@ == v@,
{
    let mut r: Vec<String> = Vec::new();
    let mut i: usize = 0;
    while i < v.len()
        invariant
            i <= v.len(),
            r@ == v@.take(i as int),
        decreases v.len() - i,
    {
        r.push(v[i].clone());
        i = i + 1;
        assert(r@ =~= v@.take(i as int));
    }
    assert(v@.take(v.len() as int) =~= v@);
    r
}

impl RawIntelEventStorageRef {
    /// A reference to one record of a JSONL object in the primary AWS S3 store.
    pub fn aws_s3_jsonl_record(
        bucket: String,
        key: String,
        line_number: usize,
        byte_offset: usize,
        byte_length: usize,
        content_sha256: String,
    ) -> (r: Self)
        ensures
            r.kind@ == "aws_s3_jsonl_record"@,
            r.endpoint_alias@ == "aws-s3-primary"@,
            r.bucket == bucket,
            r.key == key,
            r.line_number == line_number,
            r.byte_offset == byte_offset,
            r.byte_length == byte_length,
            r.content_sha256 == content_sha256,
    {
        RawIntelEventStorageRef {
            kind: "aws_s3_jsonl_record".to_owned(),
            endpoint_alias: "aws-s3-primary".to_owned(),
            bucket,
            key,
            line_number,
            byte_offset,
            byte_length,
            content_sha256,
        }
    }
}

} // verus!
