//! The `source_coverage_v1` records: one per asset of the universe.
use super::rules::{
    applies_to_asset, count_of, has_direct_asset, coverage_status, coverage_status_of,
    lemma_quality_gap_membership, quality_gaps_of,
    source_applies_to_asset,
};
use super::state::{
    counts_at_most, empty_coverage, lemma_record_source_bounded, record_source_spec,
    AssetCoverage, CoverageView,
};
use crate::args::types::opt_string_view;
use crate::registry::{Source, SourceRegistry, UniverseAsset};
use crate::str_map::{
    keys_of, lemma_lookup_bounded, lemma_lookup_upsert, lemma_sum_upsert, lookup, lemma_upsert_sorted, sorted_keys, sum_values,
    values_of, StrMap,
};
use crate::text::str_lt;
use vstd::prelude::*;

verus! {

/// What the report keeps of an available-but-disabled dedicated source.
#[derive(Debug, Clone, PartialEq, Eq)]
pub struct AvailableDisabledSourceDetail {
    pub source_id: String,
    pub source_name: String,
    pub source_url: String,
    pub source_category: String,
    pub fetch_method: String,
    pub trust_tier: String,
    pub activation_blocker: Option<String>,
}

pub struct DetailView {
    pub source_id: Seq<char>,
    pub source_name: Seq<char>,
    pub source_url: Seq<char>,
    pub source_category: Seq<char>,
    pub fetch_method: Seq<char>,
    pub trust_tier: Seq<char>,
    pub activation_blocker: Option<Seq<char>>,
}

impl View for AvailableDisabledSourceDetail {
    type V = DetailView;

    open spec fn view(&self) -> DetailView {
        DetailView {
            source_id: self.source_id@,
            source_name: self.source_name@,
            source_url: self.source_url@,
            source_category: self.source_category@,
            fetch_method: self.fetch_method@,
            trust_tier: self.trust_tier@,
            activation_blocker: opt_string_view(self.activation_blocker),
        }
    }
}

/// The details of a source.
pub open spec fn detail_of(source: Source) -> DetailView {
    DetailView {
        source_id: source.source_id@,
        source_name: source.source_name@,
        source_url: source.source_url@,
        source_category: source.source_category@,
        fetch_method: source.fetch_method@,
        trust_tier: source.trust_tier@,
        activation_blocker: opt_string_view(source.activation_blocker),
    }
}

impl AvailableDisabledSourceDetail {
    pub fn from_source(source: &Source) -> (d: Self)
        ensures
            d@ == detail_of(*source),
    {
        AvailableDisabledSourceDetail {
            source_id: source.source_id.clone(),
            source_name: source.source_name.clone(),
            source_url: source.source_url.clone(),
            source_category: source.source_category.clone(),
            fetch_method: source.fetch_method.clone(),
            trust_tier: source.trust_tier.clone(),
            activation_blocker: source.activation_blocker.clone(),
        }
    }
}

/// One asset's coverage.
#[derive(Debug)]
pub struct SourceCoverageRecord {
    pub schema_version: String,
    pub observed_at_ms: i64,
    pub asset: String,
    pub reference_symbol_native: String,
    pub coverage_status: String,
    pub enabled_source_count: usize,
    pub enabled_direct_source_count: usize,
    pub enabled_global_source_count: usize,
    pub available_disabled_direct_source_count: usize,
    pub available_disabled_global_source_count: usize,
    pub enabled_category_counts: StrMap<usize>,
    pub direct_source_ids: Vec<String>,
    pub available_disabled_source_ids: Vec<String>,
    pub available_disabled_direct_sources: Vec<AvailableDisabledSourceDetail>,
    pub quality_gaps: Vec<String>,
}

/// The coverage of an asset by the sources that apply to it, taken in
/// registry order.
pub open spec fn coverage_of(sources: Seq<Source>, asset: Seq<char>) -> CoverageView
    decreases sources.len(),
{
    if sources.len() == 0 {
        empty_coverage()
    } else {
        let c = coverage_of(sources.drop_last(), asset);
        if applies_to_asset(sources.last(), asset) {
            record_source_spec(c, sources.last(), asset)
        } else {
            c
        }
    }
}

/// Counting `n` sources leaves every count at most `n`.
pub proof fn lemma_coverage_bounded(sources: Seq<Source>, asset: Seq<char>)
    ensures
        counts_at_most(coverage_of(sources, asset), sources.len() as int),
    decreases sources.len(),
{
    if sources.len() > 0 {
        lemma_coverage_bounded(sources.drop_last(), asset);
        let c = coverage_of(sources.drop_last(), asset);
        let n = sources.drop_last().len() as int;
        lemma_record_source_bounded(c, sources.last(), asset, n);
        assert forall|j: int| 0 <= j < c.enabled_category_counts.len() implies #[trigger] c.enabled_category_counts[j].1 <= n + 1 by {}
    }
}

/// Law: an asset counts an enabled dedicated source exactly when some enabled
/// source of the registry applies to it and names it, and then its status is
/// `asset_specific_enabled`.
pub proof fn lemma_enabled_dedicated_coverage(sources: Seq<Source>, asset: Seq<char>)
    requires
        sources.len() <= usize::MAX,
    ensures
        coverage_of(sources, asset).enabled_direct_source_count > 0 <==> exists|i: int|
            0 <= i < sources.len() && (#[trigger] sources[i]).enabled && applies_to_asset(
                sources[i],
                asset,
            ) && has_direct_asset(sources[i], asset),
        coverage_of(sources, asset).enabled_direct_source_count > 0 ==> coverage_status_of(
            coverage_of(sources, asset).enabled_direct_source_count as int,
            coverage_of(sources, asset).available_disabled_direct_source_count as int,
            coverage_of(sources, asset).enabled_global_source_count as int,
        ) == "asset_specific_enabled"@,
    decreases sources.len(),
{
    if sources.len() > 0 {
        let prev = sources.drop_last();
        lemma_enabled_dedicated_coverage(prev, asset);
        lemma_coverage_bounded(prev, asset);
        let last = sources.last();
        if exists|i: int|
            0 <= i < prev.len() && (#[trigger] prev[i]).enabled && applies_to_asset(prev[i], asset)
                && has_direct_asset(prev[i], asset) {
            let i = choose|i: int|
                0 <= i < prev.len() && (#[trigger] prev[i]).enabled && applies_to_asset(
                    prev[i],
                    asset,
                ) && has_direct_asset(prev[i], asset);
            assert(sources[i] == prev[i]);
        }
        if last.enabled && applies_to_asset(last, asset) && has_direct_asset(last, asset) {
            assert(sources[sources.len() - 1] == last);
        }
        assert forall|i: int|
            0 <= i < sources.len() && (#[trigger] sources[i]).enabled && applies_to_asset(
                sources[i],
                asset,
            ) && has_direct_asset(sources[i], asset) implies coverage_of(
            sources,
            asset,
        ).enabled_direct_source_count > 0 by {
            if i < prev.len() {
                assert(prev[i] == sources[i]);
            }
        }
    }
}

/// Law: every enabled source that applies to an asset is counted under exactly
/// one category, so the per-category counts of the asset add up to its enabled
/// dedicated and global sources together (and the categories stay in ascending
/// order).
pub proof fn lemma_category_counts_sum(sources: Seq<Source>, asset: Seq<char>)
    requires
        sources.len() <= usize::MAX,
    ensures
        sorted_keys(coverage_of(sources, asset).enabled_category_counts),
        sum_values(coverage_of(sources, asset).enabled_category_counts) == coverage_of(
            sources,
            asset,
        ).enabled_direct_source_count + coverage_of(sources, asset).enabled_global_source_count,
    decreases sources.len(),
{
    if sources.len() > 0 {
        let prev = sources.drop_last();
        lemma_category_counts_sum(prev, asset);
        lemma_coverage_bounded(prev, asset);
        let c = coverage_of(prev, asset);
        let last = sources.last();
        if applies_to_asset(last, asset) && last.enabled {
            let cat = last.source_category@;
            lemma_lookup_bounded(c.enabled_category_counts, cat, prev.len() as int);
            let v = (count_of(c.enabled_category_counts, cat) + 1) as usize;
            lemma_sum_upsert(c.enabled_category_counts, cat, v);
            lemma_upsert_sorted(c.enabled_category_counts, cat, v);
        }
    }
}

/// Law: an enabled social source that applies to an asset is counted under
/// "social" in the asset's coverage, so the asset's record never reports the
/// community-reaction inventory as missing, whatever else is enabled or
/// available.
pub proof fn lemma_social_source_fills_community_gap(
    sources: Seq<Source>,
    asset: Seq<char>,
    i: int,
)
    requires
        sources.len() <= usize::MAX,
        0 <= i < sources.len(),
        sources[i].enabled,
        sources[i].source_category@ == "social"@,
        applies_to_asset(sources[i], asset),
    ensures
        lookup(coverage_of(sources, asset).enabled_category_counts, "social"@) matches Some(n)
            && n > 0,
        forall|d: int, a: int|
            !#[trigger] quality_gaps_of(coverage_of(sources, asset).enabled_category_counts, d, a).contains(
                "missing_community_reaction_inventory"@,
            ),
    decreases sources.len(),
{
    let prev = sources.drop_last();
    let last = sources.last();
    lemma_coverage_bounded(prev, asset);
    let c = coverage_of(prev, asset);
    if i < prev.len() {
        assert(prev[i] == sources[i]);
        lemma_social_source_fills_community_gap(prev, asset, i);
    }
    if applies_to_asset(last, asset) && last.enabled {
        let cat = last.source_category@;
        lemma_lookup_bounded(c.enabled_category_counts, cat, prev.len() as int);
        let v = (count_of(c.enabled_category_counts, cat) + 1) as usize;
        lemma_lookup_upsert(c.enabled_category_counts, cat, v, "social"@);
    }
    let counts = coverage_of(sources, asset).enabled_category_counts;
    assert forall|d: int, a: int|
        !#[trigger] quality_gaps_of(counts, d, a).contains(
            "missing_community_reaction_inventory"@,
        ) by {
        lemma_quality_gap_membership(counts, d, a);
    }
}

pub fn collect_asset_coverage(registry: &SourceRegistry, asset: &str) -> (c: AssetCoverage)
    ensures
        c@ == coverage_of(registry.sources@, asset@),
{
    let mut coverage = AssetCoverage::new();
    let mut i: usize = 0;
    assert(registry.sources@.take(0) =~= seq![]);
    while i < registry.sources.len()
        invariant
            i <= registry.sources.len(),
            coverage@ == coverage_of(registry.sources@.take(i as int), asset@),
        decreases registry.sources.len() - i,
    {
        let source = &registry.sources[i];
        proof {
            lemma_coverage_bounded(registry.sources@.take(i as int), asset@);
            assert(registry.sources@.take(i + 1).drop_last() =~= registry.sources@.take(i as int));
            assert(registry.sources@.take(i + 1).last() == *source);
        }
        if source_applies_to_asset(source, asset) {
            coverage.record_source(source, asset);
        }
        i = i + 1;
    }
    assert(registry.sources@.take(i as int) =~= registry.sources@);
    coverage
}

/// The record of an asset follows from its coverage.
pub open spec fn record_of(
    r: SourceCoverageRecord,
    observed_at_ms: i64,
    asset: UniverseAsset,
    c: CoverageView,
) -> bool {
    &&& r.schema_version@ == "source_coverage_v1"@
    &&& r.observed_at_ms == observed_at_ms
    &&& r.asset@ == asset.asset@
    &&& r.reference_symbol_native@ == asset.reference_symbol_native@
    &&& r.coverage_status@ == coverage_status_of(
        c.enabled_direct_source_count as int,
        c.available_disabled_direct_source_count as int,
        c.enabled_global_source_count as int,
    )
    &&& r.enabled_source_count == c.enabled_direct_source_count + c.enabled_global_source_count
    &&& r.enabled_direct_source_count == c.enabled_direct_source_count
    &&& r.enabled_global_source_count == c.enabled_global_source_count
    &&& r.available_disabled_direct_source_count == c.available_disabled_direct_source_count
    &&& r.available_disabled_global_source_count == c.available_disabled_global_source_count
    &&& r.enabled_category_counts@ == c.enabled_category_counts
    &&& r.direct_source_ids@.map_values(|s: String| s@) == keys_of(c.direct_source_ids)
    &&& r.available_disabled_source_ids@.map_values(|s: String| s@) == keys_of(
        c.available_disabled_source_ids,
    )
    &&& r.available_disabled_direct_sources@.map_values(|d: AvailableDisabledSourceDetail| d@)
        == values_of(c.available_disabled_direct_sources)
    &&& r.quality_gaps@.map_values(|s: String| s@) == quality_gaps_of(
        c.enabled_category_counts,
        c.enabled_direct_source_count as int,
        c.available_disabled_direct_source_count + c.available_disabled_global_source_count,
    )
}

pub fn build_asset_coverage_record(
    registry: &SourceRegistry,
    observed_at_ms: i64,
    asset: &UniverseAsset,
) -> (r: SourceCoverageRecord)
    ensures
        record_of(r, observed_at_ms, *asset, coverage_of(registry.sources@, asset.asset@)),
        forall|i: int, j: int|
            0 <= i < j < r.direct_source_ids@.len() ==> str_lt(
                #[trigger] r.direct_source_ids@[i]@,
                #[trigger] r.direct_source_ids@[j]@,
            ),
        forall|i: int, j: int|
            0 <= i < j < r.available_disabled_source_ids@.len() ==> str_lt(
                #[trigger] r.available_disabled_source_ids@[i]@,
                #[trigger] r.available_disabled_source_ids@[j]@,
            ),
{
    let coverage = collect_asset_coverage(registry, asset.asset.as_str());
    let n = registry.sources.len();
    proof {
        lemma_coverage_bounded(registry.sources@, asset.asset@);
        assert(registry.sources@.len() == n);
    }
    let quality_gaps = coverage.quality_gaps();
    let status = coverage_status(
        coverage.enabled_direct_source_count,
        coverage.available_disabled_direct_source_count,
        coverage.enabled_global_source_count,
    );
    let enabled_source_count = coverage.enabled_source_count();
    let direct_source_ids = coverage.direct_source_ids.keys();
    let available_disabled_source_ids = coverage.available_disabled_source_ids.keys();
    let ghost details = coverage.available_disabled_direct_sources@;
    let available_disabled_direct_sources = coverage.available_disabled_direct_sources.into_values();
    proof {
        assert(available_disabled_direct_sources@.map_values(
            |d: AvailableDisabledSourceDetail| d@,
        ) =~= values_of(coverage@.available_disabled_direct_sources));
    }
    SourceCoverageRecord {
        schema_version: "source_coverage_v1".to_owned(),
        observed_at_ms,
        asset: asset.asset.clone(),
        reference_symbol_native: asset.reference_symbol_native.clone(),
        coverage_status: status.to_owned(),
        enabled_source_count,
        enabled_direct_source_count: coverage.enabled_direct_source_count,
        enabled_global_source_count: coverage.enabled_global_source_count,
        available_disabled_direct_source_count: coverage.available_disabled_direct_source_count,
        available_disabled_global_source_count: coverage.available_disabled_global_source_count,
        enabled_category_counts: coverage.enabled_category_counts,
        direct_source_ids,
        available_disabled_source_ids,
        available_disabled_direct_sources,
        quality_gaps,
    }
}

/// One record per asset of the universe, in universe order.
pub fn build_source_coverage_report(registry: &SourceRegistry, observed_at_ms: i64) -> (report: Vec<
    SourceCoverageRecord,
>)
    ensures
        report.len() == registry.universe_assets.len(),
        forall|i: int|
            0 <= i < report.len() ==> record_of(
                #[trigger] report[i],
                observed_at_ms,
                registry.universe_assets[i],
                coverage_of(registry.sources@, registry.universe_assets[i].asset@),
            ),
{
    let mut report: Vec<SourceCoverageRecord> = Vec::new();
    let mut i: usize = 0;
    while i < registry.universe_assets.len()
        invariant
            i <= registry.universe_assets.len(),
            report.len() == i,
            forall|k: int|
                0 <= k < i ==> record_of(
                    #[trigger] report[k],
                    observed_at_ms,
                    registry.universe_assets[k],
                    coverage_of(registry.sources@, registry.universe_assets[k].asset@),
                ),
        decreases registry.universe_assets.len() - i,
    {
        let record = build_asset_coverage_record(
            registry,
            observed_at_ms,
            &registry.universe_assets[i],
        );
        report.push(record);
        i = i + 1;
    }
    report
}

} // verus!
