//! Building a raw intel event from a source item.
pub mod classification;
pub mod quality;
pub mod text;

use super::RawIntelEvent;
use crate::event::builder::classification::{
    category_hint_of, content_kind, content_kind_of, event_category_hint, historical_depth_of,
    historical_source_depth, relevance_scope_of, source_quality, source_quality_of,
    source_relevance_scope,
};
use crate::event::builder::quality::{
    content_quality, content_quality_of, content_quality_score, quality_score_of,
};
use crate::event::builder::text::{clean_text, cleaned, parse_published_at_ms, published_at_ms_of};
use crate::hashing::{hash_hex, hash_hex_of, hex_fixed, hex_u64_padded, short_hash, short_hash_of, token_hash_of};
use crate::item::FeedItem;
use crate::normalization::{
    canonical_url_of, content_fingerprint, fingerprint_text, normalize_text_for_dedup,
    normalized_text, simhash,
};
use crate::registry::Source;
use crate::str_map::{insert_keys, keys_of, string_views, StrMap};
use crate::text::{is_blank, push_char, push_str, str_is_blank, words};
use vstd::prelude::*;

verus! {

/// What identifies an item within its source: its feed id when it has a
/// non-blank one, else its canonical URL.
pub open spec fn dedupe_basis_of(item: FeedItem) -> Seq<char> {
    match item.id {
        Some(id) => if is_blank(id@) {
            canonical_url_of(item.url@)
        } else {
            id@
        },
        None => canonical_url_of(item.url@),
    }
}

/// Hash of the item's normalized cleaned title and body.
pub open spec fn text_hash_of(item: FeedItem) -> Seq<char> {
    hash_hex_of(fingerprint_text(cleaned(item.title@), cleaned(item.body@)))
}

/// Hash of the item's canonical URL.
pub open spec fn url_hash_of(item: FeedItem) -> Seq<char> {
    hash_hex_of(canonical_url_of(item.url@))
}

/// Hash identifying the item within its source.
pub open spec fn exact_source_key_of(source: &Source, item: FeedItem) -> Seq<char> {
    hash_hex_of(source.source_id@ + seq![':'] + normalized_text(dedupe_basis_of(item)))
}

/// `{source_id}:{exact_source_key}:{normalized_text_hash}`.
pub open spec fn dedup_key_of(source: &Source, item: FeedItem) -> Seq<char> {
    source.source_id@ + seq![':'] + exact_source_key_of(source, item) + seq![':'] + text_hash_of(
        item,
    )
}

/// The event id: `intel_evt_` and the short hash of the dedup key.
pub open spec fn event_id_of(source: &Source, item: FeedItem) -> Seq<char> {
    "intel_evt_"@ + short_hash_of(dedup_key_of(source, item))
}

/// The SimHash of the item's normalized cleaned title and body.
pub open spec fn simhash_of_item(item: FeedItem) -> nat {
    simhash(
        words(fingerprint_text(cleaned(item.title@), cleaned(item.body@))).map_values(
            |w: Seq<char>| token_hash_of(w),
        ),
    )
}

/// The assets an event is tagged with: the source's direct assets and the
/// matched assets, sorted and without repeats.
pub open spec fn symbol_candidates_of(source: &Source, matched_assets: Seq<String>) -> Seq<
    Seq<char>,
> {
    keys_of(
        insert_keys(
            insert_keys(Seq::empty(), string_views(source.direct_asset_list())),
            string_views(matched_assets),
        ),
    )
}

/// Builds the raw intel event of one item.
pub fn build_raw_intel_event(
    source: &Source,
    item: &FeedItem,
    matched_assets: &[String],
    fetched_at_ms: i64,
) -> (e: RawIntelEvent)
    ensures
        e.event_id@ == event_id_of(source, *item),
        e.source_id@ == source.source_id@,
        e.source_category@ == source.source_category@,
        e.source_name@ == source.source_name@,
        e.fetched_at_ms == fetched_at_ms,
        e.published_at_ms == (match item.published_at {
            Some(p) => published_at_ms_of(p@),
            None => None,
        }),
        e.observed_at_ms == (match e.published_at_ms {
            Some(p) => p,
            None => fetched_at_ms,
        }),
        e.language@ == source.language_hint@,
        e.title@ == cleaned(item.title@),
        e.body@ == cleaned(item.body@),
        e.url@ == item.url@,
        e.author_or_channel == item.author,
        e.trust_tier@ == source.trust_tier@,
        e.cadence_tier@ == source.cadence_tier@,
        e.content_hash@ == hash_hex_of(text_hash_of(*item) + seq!['\n'] + url_hash_of(*item)),
        e.dedup_key@ == dedup_key_of(source, *item),
        e.exact_source_key@ == exact_source_key_of(source, *item),
        e.canonical_url@ == canonical_url_of(item.url@),
        e.canonical_url_hash@ == url_hash_of(*item),
        e.normalized_content_hash@ == text_hash_of(*item),
        e.simhash64@ == hex_fixed(simhash_of_item(*item), 16),
        e.dedup_decision@ == "new"@,
        e.duplicate_of_event_id is None,
        string_views(e.symbol_candidates@) == symbol_candidates_of(source, matched_assets@),
        e.event_category_hint matches Some(h) && h@ == category_hint_of(source),
        e.top50_relevance@ == (if symbol_candidates_of(source, matched_assets@).len() == 0 {
            "unknown"@
        } else {
            "relevant"@
        }),
        e.content_kind@ == content_kind_of(source),
        e.content_quality@ == content_quality_of(source, cleaned(item.body@)),
        e.content_quality_score == quality_score_of(
            source,
            content_quality_of(source, cleaned(item.body@)),
            source.direct_asset_list().len() as usize,
            matched_assets@.len() as usize,
        ),
        e.source_quality@ == source_quality_of(
            source,
            source.direct_asset_list().len() as usize,
            matched_assets@.len() as usize,
        ),
        e.source_relevance_scope@ == relevance_scope_of(
            source,
            source.direct_asset_list().len() as usize,
            matched_assets@.len() as usize,
        ),
        e.direct_asset_count == source.direct_asset_list().len(),
        e.matched_asset_count == matched_assets@.len(),
        e.historical_source_depth@ == (match item.historical_source_depth {
            Some(d) => d@,
            None => historical_depth_of(source),
        }),
        e.backfill_window_start_ms == item.backfill_window_start_ms,
        e.backfill_window_end_ms == item.backfill_window_end_ms,
        e.source_time_range_verified == (match item.source_time_range_verified {
            Some(v) => v,
            None => false,
        }),
        e.schema_version@ == "raw_intel_event_v1"@,
{
    let published_at_ms = match &item.published_at {
        Some(p) => parse_published_at_ms(p.as_str()),
        None => None,
    };
    let body = clean_text(item.body.as_str());
    let title = clean_text(item.title.as_str());
    let fingerprint = content_fingerprint(title.as_str(), body.as_str(), item.url.as_str());
    let use_id = match &item.id {
        Some(id) => !str_is_blank(id.as_str()),
        None => false,
    };
    let normalized_dedupe_basis = if use_id {
        match &item.id {
            Some(id) => normalize_text_for_dedup(id.as_str()),
            None => normalize_text_for_dedup(fingerprint.canonical_url.as_str()),
        }
    } else {
        normalize_text_for_dedup(fingerprint.canonical_url.as_str())
    };
    let mut key_basis = source.source_id.clone();
    push_char(&mut key_basis, ':');
    push_str(&mut key_basis, normalized_dedupe_basis.as_str());
    let exact_source_key = hash_hex(key_basis.as_str());
    let mut content_basis = fingerprint.normalized_text_hash.clone();
    push_char(&mut content_basis, '\n');
    push_str(&mut content_basis, fingerprint.canonical_url_hash.as_str());
    let content_hash = hash_hex(content_basis.as_str());
    let mut dedup_key = source.source_id.clone();
    push_char(&mut dedup_key, ':');
    push_str(&mut dedup_key, exact_source_key.as_str());
    push_char(&mut dedup_key, ':');
    push_str(&mut dedup_key, fingerprint.normalized_text_hash.as_str());
    let mut candidates: StrMap<()> = StrMap::new();
    let direct = source.direct_assets();
    candidates.insert_all(direct);
    candidates.insert_all(matched_assets);
    let symbol_candidates = candidates.keys();
    let top50_relevance = if symbol_candidates.len() == 0 {
        "unknown"
    } else {
        "relevant"
    };
    let direct_asset_count = direct.len();
    let matched_asset_count = matched_assets.len();
    let content_quality_label = content_quality(source, body.as_str());
    let score = content_quality_score(
        source,
        content_quality_label,
        direct_asset_count,
        matched_asset_count,
    );
    let quality = source_quality(source, direct_asset_count, matched_asset_count);
    let scope = source_relevance_scope(source, direct_asset_count, matched_asset_count);
    let mut event_id = "intel_evt_".to_owned();
    let id_hash = short_hash(dedup_key.as_str());
    push_str(&mut event_id, id_hash.as_str());
    let observed_at_ms = match published_at_ms {
        Some(p) => p,
        None => fetched_at_ms,
    };
    let depth = match &item.historical_source_depth {
        Some(d) => d.clone(),
        None => historical_source_depth(source).to_owned(),
    };
    let verified = match item.source_time_range_verified {
        Some(v) => v,
        None => false,
    };
    proof {
        assert(key_basis@ =~= source.source_id@ + seq![':'] + normalized_text(
            dedupe_basis_of(*item),
        ));
        assert(content_basis@ =~= text_hash_of(*item) + seq!['\n'] + url_hash_of(*item));
        assert(dedup_key@ =~= dedup_key_of(source, *item));
    }
    RawIntelEvent {
        event_id,
        source_id: source.source_id.clone(),
        source_category: source.source_category.clone(),
        source_name: source.source_name.clone(),
        fetched_at_ms,
        published_at_ms,
        observed_at_ms,
        language: source.language_hint.clone(),
        title,
        body,
        url: item.url.clone(),
        author_or_channel: item.author.clone(),
        trust_tier: source.trust_tier.clone(),
        cadence_tier: source.cadence_tier.clone(),
        content_hash,
        dedup_key,
        exact_source_key,
        canonical_url: fingerprint.canonical_url,
        canonical_url_hash: fingerprint.canonical_url_hash,
        normalized_content_hash: fingerprint.normalized_text_hash,
        simhash64: hex_u64_padded(fingerprint.simhash64),
        dedup_decision: "new".to_owned(),
        duplicate_of_event_id: None,
        symbol_candidates,
        event_category_hint: Some(event_category_hint(source).to_owned()),
        top50_relevance: top50_relevance.to_owned(),
        content_kind: content_kind(source).to_owned(),
        content_quality: content_quality_label.to_owned(),
        content_quality_score: score,
        source_quality: quality.to_owned(),
        source_relevance_scope: scope.to_owned(),
        direct_asset_count,
        matched_asset_count,
        historical_source_depth: depth,
        backfill_window_start_ms: item.backfill_window_start_ms,
        backfill_window_end_ms: item.backfill_window_end_ms,
        source_time_range_verified: verified,
        schema_version: "raw_intel_event_v1".to_owned(),
    }
}

} // verus!
