//! Category hints and quality labels derived from a source's registry entry.
use crate::registry::Source;
use crate::text::{contains, opt_is, opt_str_is, str_contains, str_eq};
use vstd::prelude::*;

verus! {

pub open spec fn cms_adapter(source: &Source) -> bool {
    opt_is(source.adapter, "binance_cms_announcement_list"@)
}

/// The category hint of an event from its source.
pub open spec fn category_hint_of(source: &Source) -> Seq<char> {
    let id = source.source_id@;
    if cms_adapter(source) && contains(id, "listing"@) && !contains(id, "delisting"@) {
        "exchange_listing"@
    } else if cms_adapter(source) && contains(id, "delisting"@) {
        "exchange_delisting"@
    } else if cms_adapter(source) && contains(id, "maintenance"@) {
        "exchange_maintenance"@
    } else if opt_is(source.adapter, "binance_usdm_funding_rate_latest"@) {
        "funding_rate_snapshot"@
    } else if opt_is(source.adapter, "binance_usdm_funding_rate_history"@) {
        "funding_rate_history"@
    } else if opt_is(source.adapter, "binance_usdm_open_interest"@) {
        "open_interest_snapshot"@
    } else if opt_is(source.adapter, "binance_usdm_open_interest_hist_recent"@) {
        "open_interest_snapshot_recent"@
    } else {
        let c = source.source_category@;
        if c == "governance"@ {
            "governance_update"@
        } else if c == "developer_activity"@ {
            "developer_release"@
        } else if c == "project_notice"@ {
            "project_notice"@
        } else if c == "social"@ {
            "community_reaction"@
        } else if c == "news"@ {
            "news_article"@
        } else if c == "exchange_notice"@ {
            "exchange_notice"@
        } else if c == "funding"@ {
            "derivatives_snapshot"@
        } else {
            "raw_intel_observation"@
        }
    }
}

/// Law: for a Binance CMS announcement source, an id that names delistings
/// always gives the delisting hint, even though "delisting" contains
/// "listing"; an id that names listings but not delistings gives the listing
/// hint.
pub proof fn lemma_cms_listing_hints(source: &Source)
    requires
        source.adapter matches Some(a) && a@ == "binance_cms_announcement_list"@,
    ensures
        contains(source.source_id@, "delisting"@) ==> category_hint_of(source)
            == "exchange_delisting"@,
        contains(source.source_id@, "listing"@) && !contains(source.source_id@, "delisting"@)
            ==> category_hint_of(source) == "exchange_listing"@,
{
}

pub fn event_category_hint(source: &Source) -> (r: &'static str)
    ensures
        r@ == category_hint_of(source),
{
    let cms = opt_str_is(&source.adapter, "binance_cms_announcement_list");
    let id = source.source_id.as_str();
    if cms && str_contains(id, "listing") && !str_contains(id, "delisting") {
        "exchange_listing"
    } else if cms && str_contains(id, "delisting") {
        "exchange_delisting"
    } else if cms && str_contains(id, "maintenance") {
        "exchange_maintenance"
    } else if opt_str_is(&source.adapter, "binance_usdm_funding_rate_latest") {
        "funding_rate_snapshot"
    } else if opt_str_is(&source.adapter, "binance_usdm_funding_rate_history") {
        "funding_rate_history"
    } else if opt_str_is(&source.adapter, "binance_usdm_open_interest") {
        "open_interest_snapshot"
    } else if opt_str_is(&source.adapter, "binance_usdm_open_interest_hist_recent") {
        "open_interest_snapshot_recent"
    } else {
        let c = source.source_category.as_str();
        if str_eq(c, "governance") {
            "governance_update"
        } else if str_eq(c, "developer_activity") {
            "developer_release"
        } else if str_eq(c, "project_notice") {
            "project_notice"
        } else if str_eq(c, "social") {
            "community_reaction"
        } else if str_eq(c, "news") {
            "news_article"
        } else if str_eq(c, "exchange_notice") {
            "exchange_notice"
        } else if str_eq(c, "funding") {
            "derivatives_snapshot"
        } else {
            "raw_intel_observation"
        }
    }
}

/// How far back a source can be read.
pub open spec fn historical_depth_of(source: &Source) -> Seq<char> {
    if opt_is(source.adapter, "binance_usdm_funding_rate_history"@) {
        "range_queryable"@
    } else if opt_is(source.adapter, "binance_usdm_open_interest_hist_recent"@) {
        "recent_1m"@
    } else if opt_is(source.adapter, "binance_usdm_funding_rate_latest"@) || opt_is(
        source.adapter,
        "binance_usdm_open_interest"@,
    ) {
        "live_only"@
    } else if cms_adapter(source) {
        "feed_retained"@
    } else if source.fetch_method@ == "rss"@ {
        "feed_retained"@
    } else {
        "unknown"@
    }
}

pub fn historical_source_depth(source: &Source) -> (r: &'static str)
    ensures
        r@ == historical_depth_of(source),
{
    if opt_str_is(&source.adapter, "binance_usdm_funding_rate_history") {
        "range_queryable"
    } else if opt_str_is(&source.adapter, "binance_usdm_open_interest_hist_recent") {
        "recent_1m"
    } else if opt_str_is(&source.adapter, "binance_usdm_funding_rate_latest") || opt_str_is(
        &source.adapter,
        "binance_usdm_open_interest",
    ) {
        "live_only"
    } else if opt_str_is(&source.adapter, "binance_cms_announcement_list") {
        "feed_retained"
    } else if str_eq(source.fetch_method.as_str(), "rss") {
        "feed_retained"
    } else {
        "unknown"
    }
}

/// The kind of content a source category carries.
pub open spec fn content_kind_of(source: &Source) -> Seq<char> {
    let c = source.source_category@;
    if c == "news"@ {
        "news_article"@
    } else if c == "social"@ {
        "community_reaction"@
    } else if c == "funding"@ {
        "derivatives_snapshot"@
    } else if c == "exchange_notice"@ {
        "exchange_notice"@
    } else if c == "project_notice"@ {
        "project_notice"@
    } else if c == "governance"@ {
        "governance_update"@
    } else if c == "developer_activity"@ {
        "developer_activity"@
    } else {
        "raw_intel_observation"@
    }
}

pub fn content_kind(source: &Source) -> (r: &'static str)
    ensures
        r@ == content_kind_of(source),
{
    let c = source.source_category.as_str();
    if str_eq(c, "news") {
        "news_article"
    } else if str_eq(c, "social") {
        "community_reaction"
    } else if str_eq(c, "funding") {
        "derivatives_snapshot"
    } else if str_eq(c, "exchange_notice") {
        "exchange_notice"
    } else if str_eq(c, "project_notice") {
        "project_notice"
    } else if str_eq(c, "governance") {
        "governance_update"
    } else if str_eq(c, "developer_activity") {
        "developer_activity"
    } else {
        "raw_intel_observation"
    }
}

/// How much a source's item can be trusted for the assets it names.
pub open spec fn source_quality_of(
    source: &Source,
    direct_asset_count: usize,
    matched_asset_count: usize,
) -> Seq<char> {
    if source.source_category@ == "funding"@ {
        "market_snapshot"@
    } else if source.source_category@ == "social"@ {
        "community_reaction"@
    } else if source.trust_tier@ == "T0"@ && direct_asset_count > 0 {
        "trusted_direct"@
    } else if source.trust_tier@ == "T0"@ {
        "trusted_official"@
    } else if source.trust_tier@ == "T1"@ && matched_asset_count > 0 {
        "trusted_symbol_match"@
    } else {
        "general_context"@
    }
}

pub fn source_quality(source: &Source, direct_asset_count: usize, matched_asset_count: usize) -> (r:
    &'static str)
    ensures
        r@ == source_quality_of(source, direct_asset_count, matched_asset_count),
{
    if str_eq(source.source_category.as_str(), "funding") {
        "market_snapshot"
    } else if str_eq(source.source_category.as_str(), "social") {
        "community_reaction"
    } else if str_eq(source.trust_tier.as_str(), "T0") && direct_asset_count > 0 {
        "trusted_direct"
    } else if str_eq(source.trust_tier.as_str(), "T0") {
        "trusted_official"
    } else if str_eq(source.trust_tier.as_str(), "T1") && matched_asset_count > 0 {
        "trusted_symbol_match"
    } else {
        "general_context"
    }
}

/// Why an event is considered relevant to the asset universe.
pub open spec fn relevance_scope_of(
    source: &Source,
    direct_asset_count: usize,
    matched_asset_count: usize,
) -> Seq<char> {
    if direct_asset_count > 0 {
        "direct_asset"@
    } else if matched_asset_count > 0 {
        "symbol_alias_match"@
    } else if source.top50_relevance_mode@ == "symbol_alias_match"@ {
        "global_symbol_scan"@
    } else {
        "unknown"@
    }
}

pub fn source_relevance_scope(
    source: &Source,
    direct_asset_count: usize,
    matched_asset_count: usize,
) -> (r: &'static str)
    ensures
        r@ == relevance_scope_of(source, direct_asset_count, matched_asset_count),
{
    if direct_asset_count > 0 {
        "direct_asset"
    } else if matched_asset_count > 0 {
        "symbol_alias_match"
    } else if str_eq(source.top50_relevance_mode.as_str(), "symbol_alias_match") {
        "global_symbol_scan"
    } else {
        "unknown"
    }
}

} // verus!
