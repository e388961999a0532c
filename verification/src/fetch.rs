//! Conditional fetches: the cache validators a source answered with, and the
//! ones sent back on the next fetch.
use crate::item::FeedItem;
use crate::text::{is_blank, str_is_blank};
use vstd::prelude::*;

verus! {

/// The validators remembered from a source's last answer.
#[derive(Debug, Clone, Default, PartialEq, Eq)]
pub struct CacheHeaders {
    pub etag: Option<String>,
    pub last_modified: Option<String>,
}

/// The status and validators of one answer.
#[derive(Debug, Clone, PartialEq, Eq)]
pub struct FetchMetadata {
    pub http_status: u16,
    pub etag: Option<String>,
    pub last_modified: Option<String>,
}

/// What fetching a source gave.
#[derive(Debug, Clone, PartialEq, Eq)]
pub enum SourceFetchResult {
    Fetched { items: Vec<FeedItem>, metadata: FetchMetadata },
    NotModified { metadata: FetchMetadata },
}

/// A header value counts only when it is not blank.
pub open spec fn kept_header(raw: Option<String>) -> Option<String> {
    match raw {
        Some(v) => if is_blank(v@) {
            None
        } else {
            Some(v)
        },
        None => None,
    }
}

/// Keeps a header value (read as text) unless it is blank.
pub fn header_to_string(raw: Option<String>) -> (r: Option<String>)
    ensures
        r == kept_header(raw),
{
    match raw {
        Some(v) => {
            if str_is_blank(v.as_str()) {
                None
            } else {
                Some(v)
            }
        },
        None => None,
    }
}

/// The metadata of an answer with `http_status` and the raw `ETag` and
/// `Last-Modified` values (those that read as text); blank values are dropped.
pub fn metadata_from_headers(
    http_status: u16,
    etag: Option<String>,
    last_modified: Option<String>,
) -> (m: FetchMetadata)
    ensures
        m.http_status == http_status,
        m.etag == kept_header(etag),
        m.last_modified == kept_header(last_modified),
{
    FetchMetadata {
        http_status,
        etag: header_to_string(etag),
        last_modified: header_to_string(last_modified),
    }
}

/// The `If-None-Match` and `If-Modified-Since` values to send: the remembered
/// `ETag` and `Last-Modified`, when there are cache headers.
pub fn apply_cache_headers(cache_headers: Option<&CacheHeaders>) -> (r: (Option<String>, Option<String>))
    ensures
        match cache_headers {
            Some(h) => r.0 == h.etag && r.1 == h.last_modified,
            None => r.0 is None && r.1 is None,
        },
{
    match cache_headers {
        None => (None, None),
        Some(h) => (h.etag.clone(), h.last_modified.clone()),
    }
}

} // verus!
