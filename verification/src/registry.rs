//! The source registry: the crawl sources and the asset universe they cover.
use crate::text::{opt_is, opt_str_is};
use vstd::prelude::*;

verus! {

/// Which assets a source speaks about: every major asset, or a named list.
#[derive(Debug, Clone, PartialEq, Eq)]
pub enum AppliesToAssets {
    All(String),
    List(Vec<String>),
}

/// One crawl source of the registry.
#[derive(Debug, Clone, PartialEq, Eq)]
pub struct Source {
    pub source_id: String,
    pub source_category: String,
    pub source_name: String,
    pub source_url: String,
    pub fetch_method: String,
    pub adapter: Option<String>,
    pub max_items_per_run: Option<usize>,
    pub trust_tier: String,
    pub cadence_tier: String,
    pub language_hint: String,
    pub enabled: bool,
    pub source_state: Option<String>,
    pub activation_blocker: Option<String>,
    pub top50_relevance_mode: String,
    pub applies_to_assets: AppliesToAssets,
}

/// One asset of the crawl universe.
#[derive(Debug, Clone, PartialEq, Eq)]
pub struct UniverseAsset {
    pub asset: String,
    pub reference_symbol_native: String,
    pub rss_seed_status: Option<String>,
}

/// The source registry.
#[derive(Debug, Clone, PartialEq, Eq)]
pub struct SourceRegistry {
    pub universe_assets: Vec<UniverseAsset>,
    pub sources: Vec<Source>,
}

/// The adapter that serves audited funding-rate history backfills.
pub open spec fn manual_backfill_adapter() -> Seq<char> {
    "binance_usdm_funding_rate_history"@
}

impl Source {
    /// The assets a source is dedicated to: its asset list, or none for a source
    /// that covers all assets.
    pub open spec fn direct_asset_list(&self) -> Seq<String> {
        match &self.applies_to_assets {
            AppliesToAssets::List(values) => values@,
            AppliesToAssets::All(_) => Seq::empty(),
        }
    }

    /// Whether the source is the manual funding-history backfill source, which the
    /// live loop never selects.
    pub open spec fn is_manual_backfill(&self) -> bool {
        opt_is(self.adapter, manual_backfill_adapter())
    }

    /// The assets this source is dedicated to.
    pub fn direct_assets(&self) -> (r: &[String])
        ensures
            r@ == self.direct_asset_list(),
    {
        match &self.applies_to_assets {
            AppliesToAssets::List(values) => values.as_slice(),
            AppliesToAssets::All(_) => &[],
        }
    }

    /// Whether this source is the manual funding-history backfill source.
    pub fn is_manual_backfill_source(&self) -> (r: bool)
        ensures
            r == self.is_manual_backfill(),
    {
        opt_str_is(&self.adapter, "binance_usdm_funding_rate_history")
    }
}

} // verus!
