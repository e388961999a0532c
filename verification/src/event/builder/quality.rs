//! Content quality labels and scores.
use crate::registry::Source;
use crate::text::{chars_ends_with, chars_of, chars_starts_with, chars_trim, ends_with, starts_with, str_eq, trim};
use vstd::prelude::*;

verus! {

/// How much text an item carries.
pub open spec fn content_quality_of(source: &Source, body: Seq<char>) -> Seq<char> {
    let t = trim(body);
    if source.source_category@ == "funding"@ {
        "numeric_observation"@
    } else if t.len() == 0 {
        "title_only"@
    } else if starts_with(t, seq!['{']) && ends_with(t, seq!['}']) {
        "metadata_fallback"@
    } else if t.len() < 120 {
        "short_text"@
    } else {
        "full_text"@
    }
}

pub fn content_quality(source: &Source, body: &str) -> (r: &'static str)
    ensures
        r@ == content_quality_of(source, body@),
{
    if str_eq(source.source_category.as_str(), "funding") {
        return "numeric_observation";
    }
    let b = chars_of(body);
    let trimmed = chars_trim(b.as_slice());
    let open = vec!['{'];
    let close = vec!['}'];
    assert(open@ =~= seq!['{']);
    assert(close@ =~= seq!['}']);
    if trimmed.len() == 0 {
        "title_only"
    } else if chars_starts_with(trimmed.as_slice(), open.as_slice()) && chars_ends_with(
        trimmed.as_slice(),
        close.as_slice(),
    ) {
        "metadata_fallback"
    } else if trimmed.len() < 120 {
        "short_text"
    } else {
        "full_text"
    }
}

/// Base score of a content quality label.
pub open spec fn quality_base(content_quality: Seq<char>) -> nat {
    if content_quality == "full_text"@ {
        70
    } else if content_quality == "short_text"@ {
        55
    } else if content_quality == "numeric_observation"@ {
        50
    } else if content_quality == "metadata_fallback"@ {
        40
    } else if content_quality == "title_only"@ {
        25
    } else {
        35
    }
}

/// Quality score: the label's base, plus 15 for a T0 or 8 for a T1 source, plus
/// 10 with direct assets or 5 with matched assets, at most 100.
pub open spec fn quality_score_of(
    source: &Source,
    content_quality: Seq<char>,
    direct_asset_count: usize,
    matched_asset_count: usize,
) -> nat {
    let tier_bonus: nat = if source.trust_tier@ == "T0"@ {
        15
    } else if source.trust_tier@ == "T1"@ {
        8
    } else {
        0
    };
    let asset_bonus: nat = if direct_asset_count > 0 {
        10
    } else if matched_asset_count > 0 {
        5
    } else {
        0
    };
    let total = quality_base(content_quality) + tier_bonus + asset_bonus;
    if total <= 100 {
        total
    } else {
        100
    }
}

pub fn content_quality_score(
    source: &Source,
    content_quality: &str,
    direct_asset_count: usize,
    matched_asset_count: usize,
) -> (r: u8)
    ensures
        r == quality_score_of(source, content_quality@, direct_asset_count, matched_asset_count),
        r <= 100,
{
    let mut score: u8 = if str_eq(content_quality, "full_text") {
        70
    } else if str_eq(content_quality, "short_text") {
        55
    } else if str_eq(content_quality, "numeric_observation") {
        50
    } else if str_eq(content_quality, "metadata_fallback") {
        40
    } else if str_eq(content_quality, "title_only") {
        25
    } else {
        35
    };
    if str_eq(source.trust_tier.as_str(), "T0") {
        score = score + 15;
    } else if str_eq(source.trust_tier.as_str(), "T1") {
        score = score + 8;
    }
    if direct_asset_count > 0 {
        score = score + 10;
    } else if matched_asset_count > 0 {
        score = score + 5;
    }
    if score <= 100 {
        score
    } else {
        100
    }
}

} // verus!
