//! What the registry's sources say about one asset, gathered source by source.
use super::report::{detail_of, AvailableDisabledSourceDetail, DetailView};
use super::rules::{
    count_of, has_direct_asset, quality_gaps, quality_gaps_of, source_has_direct_asset,
};
use crate::registry::Source;
use crate::str_map::{
    lemma_lookup_bounded, lemma_upsert_bounded, lemma_upsert_map_values, upsert, StrMap,
};
use crate::text::{opt_is, opt_str_is};
use vstd::prelude::*;

verus! {

#[derive(Debug)]
pub struct AssetCoverage {
    pub enabled_category_counts: StrMap<usize>,
    pub direct_source_ids: StrMap<()>,
    pub available_disabled_source_ids: StrMap<()>,
    pub available_disabled_direct_sources: StrMap<AvailableDisabledSourceDetail>,
    pub enabled_direct_source_count: usize,
    pub enabled_global_source_count: usize,
    pub available_disabled_direct_source_count: usize,
    pub available_disabled_global_source_count: usize,
}

/// The coverage with the identifier sets as sorted key lists and the details
/// by their views.
pub struct CoverageView {
    pub enabled_category_counts: Seq<(Seq<char>, usize)>,
    pub direct_source_ids: Seq<(Seq<char>, ())>,
    pub available_disabled_source_ids: Seq<(Seq<char>, ())>,
    pub available_disabled_direct_sources: Seq<(Seq<char>, DetailView)>,
    pub enabled_direct_source_count: usize,
    pub enabled_global_source_count: usize,
    pub available_disabled_direct_source_count: usize,
    pub available_disabled_global_source_count: usize,
}

pub open spec fn detail_view(d: AvailableDisabledSourceDetail) -> DetailView {
    d@
}

impl View for AssetCoverage {
    type V = CoverageView;

    open spec fn view(&self) -> CoverageView {
        CoverageView {
            enabled_category_counts: self.enabled_category_counts@,
            direct_source_ids: self.direct_source_ids@,
            available_disabled_source_ids: self.available_disabled_source_ids@,
            available_disabled_direct_sources: self.available_disabled_direct_sources@.map_values(
                |e: (Seq<char>, AvailableDisabledSourceDetail)| (e.0, detail_view(e.1)),
            ),
            enabled_direct_source_count: self.enabled_direct_source_count,
            enabled_global_source_count: self.enabled_global_source_count,
            available_disabled_direct_source_count: self.available_disabled_direct_source_count,
            available_disabled_global_source_count: self.available_disabled_global_source_count,
        }
    }
}

/// Coverage before any source.
pub open spec fn empty_coverage() -> CoverageView {
    CoverageView {
        enabled_category_counts: seq![],
        direct_source_ids: seq![],
        available_disabled_source_ids: seq![],
        available_disabled_direct_sources: seq![],
        enabled_direct_source_count: 0,
        enabled_global_source_count: 0,
        available_disabled_direct_source_count: 0,
        available_disabled_global_source_count: 0,
    }
}

/// Every count is at most `n`, and so are the enabled and the available-disabled
/// totals.
pub open spec fn counts_at_most(c: CoverageView, n: int) -> bool {
    &&& forall|j: int|
        0 <= j < c.enabled_category_counts.len() ==> #[trigger] c.enabled_category_counts[j].1
            <= n
    &&& c.enabled_direct_source_count + c.enabled_global_source_count <= n
    &&& c.available_disabled_direct_source_count + c.available_disabled_global_source_count <= n
}

/// An enabled source adds one to its category and counts as dedicated or global.
pub open spec fn record_enabled_spec(c: CoverageView, source: Source, asset: Seq<char>) -> CoverageView {
    let counts = upsert(
        c.enabled_category_counts,
        source.source_category@,
        (count_of(c.enabled_category_counts, source.source_category@) + 1) as usize,
    );
    if has_direct_asset(source, asset) {
        CoverageView {
            enabled_category_counts: counts,
            enabled_direct_source_count: (c.enabled_direct_source_count + 1) as usize,
            direct_source_ids: upsert(c.direct_source_ids, source.source_id@, ()),
            ..c
        }
    } else {
        CoverageView {
            enabled_category_counts: counts,
            enabled_global_source_count: (c.enabled_global_source_count + 1) as usize,
            ..c
        }
    }
}

/// An available-disabled source is listed by id and counts as dedicated (with
/// its details kept) or global.
pub open spec fn record_available_disabled_spec(
    c: CoverageView,
    source: Source,
    asset: Seq<char>,
) -> CoverageView {
    let ids = upsert(c.available_disabled_source_ids, source.source_id@, ());
    if has_direct_asset(source, asset) {
        CoverageView {
            available_disabled_direct_source_count: (c.available_disabled_direct_source_count
                + 1) as usize,
            available_disabled_direct_sources: upsert(
                c.available_disabled_direct_sources,
                source.source_id@,
                detail_of(source),
            ),
            available_disabled_source_ids: ids,
            ..c
        }
    } else {
        CoverageView {
            available_disabled_global_source_count: (c.available_disabled_global_source_count
                + 1) as usize,
            available_disabled_source_ids: ids,
            ..c
        }
    }
}

/// Enabled sources and available-disabled sources are counted; other disabled
/// sources are not.
pub open spec fn record_source_spec(c: CoverageView, source: Source, asset: Seq<char>) -> CoverageView {
    if source.enabled {
        record_enabled_spec(c, source, asset)
    } else if opt_is(source.source_state, "available_disabled"@) {
        record_available_disabled_spec(c, source, asset)
    } else {
        c
    }
}

/// Recording a source raises each count by at most one.
pub proof fn lemma_record_source_bounded(c: CoverageView, source: Source, asset: Seq<char>, n: int)
    requires
        counts_at_most(c, n),
    ensures
        counts_at_most(record_source_spec(c, source, asset), n + 1),
{
    let cat = source.source_category@;
    lemma_lookup_bounded(c.enabled_category_counts, cat, n);
    assert forall|j: int| 0 <= j < c.enabled_category_counts.len() implies #[trigger] c.enabled_category_counts[j].1 <= n + 1 by {}
    if source.enabled {
        lemma_upsert_bounded(
            c.enabled_category_counts,
            cat,
            (count_of(c.enabled_category_counts, cat) + 1) as usize,
            n + 1,
        );
    }
}

impl AssetCoverage {
    pub fn new() -> (c: Self)
        ensures
            c@ == empty_coverage(),
    {
        let c = AssetCoverage {
            enabled_category_counts: StrMap::new(),
            direct_source_ids: StrMap::new(),
            available_disabled_source_ids: StrMap::new(),
            available_disabled_direct_sources: StrMap::new(),
            enabled_direct_source_count: 0,
            enabled_global_source_count: 0,
            available_disabled_direct_source_count: 0,
            available_disabled_global_source_count: 0,
        };
        assert(c@.available_disabled_direct_sources =~= seq![]);
        c
    }

    pub fn record_source(&mut self, source: &Source, asset: &str)
        requires
            counts_at_most(old(self)@, usize::MAX - 1),
        ensures
            final(self)@ == record_source_spec(old(self)@, *source, asset@),
    {
        if source.enabled {
            self.record_enabled_source(source, asset);
            return;
        }
        if opt_str_is(&source.source_state, "available_disabled") {
            self.record_available_disabled_source(source, asset);
        }
    }

    pub fn record_enabled_source(&mut self, source: &Source, asset: &str)
        requires
            counts_at_most(old(self)@, usize::MAX - 1),
        ensures
            final(self)@ == record_enabled_spec(old(self)@, *source, asset@),
    {
        proof {
            lemma_lookup_bounded(
                old(self)@.enabled_category_counts,
                source.source_category@,
                usize::MAX - 1,
            );
        }
        self.enabled_category_counts.increment(source.source_category.clone());
        if source_has_direct_asset(source, asset) {
            self.enabled_direct_source_count = self.enabled_direct_source_count + 1;
            self.direct_source_ids.insert(source.source_id.clone(), ());
        } else {
            self.enabled_global_source_count = self.enabled_global_source_count + 1;
        }
    }

    pub fn record_available_disabled_source(&mut self, source: &Source, asset: &str)
        requires
            counts_at_most(old(self)@, usize::MAX - 1),
        ensures
            final(self)@ == record_available_disabled_spec(old(self)@, *source, asset@),
    {
        if source_has_direct_asset(source, asset) {
            self.available_disabled_direct_source_count = self.available_disabled_direct_source_count
                + 1;
            let detail = AvailableDisabledSourceDetail::from_source(source);
            let ghost before = self.available_disabled_direct_sources@;
            self.available_disabled_direct_sources.insert(source.source_id.clone(), detail);
            proof {
                let f = |d: AvailableDisabledSourceDetail| detail_view(d);
                lemma_upsert_map_values(before, source.source_id@, detail, f);
                let after = self.available_disabled_direct_sources@;
                assert(after.map_values(
                    |e: (Seq<char>, AvailableDisabledSourceDetail)| (e.0, detail_view(e.1)),
                ) =~= after.map_values(|e: (Seq<char>, AvailableDisabledSourceDetail)| (e.0, f(e.1))));
                assert(before.map_values(
                    |e: (Seq<char>, AvailableDisabledSourceDetail)| (e.0, detail_view(e.1)),
                ) =~= before.map_values(|e: (Seq<char>, AvailableDisabledSourceDetail)| (e.0, f(e.1))));
            }
        } else {
            self.available_disabled_global_source_count = self.available_disabled_global_source_count
                + 1;
        }
        self.available_disabled_source_ids.insert(source.source_id.clone(), ());
    }

    pub fn enabled_source_count(&self) -> (n: usize)
        requires
            self.enabled_direct_source_count + self.enabled_global_source_count <= usize::MAX,
        ensures
            n == self.enabled_direct_source_count + self.enabled_global_source_count,
    {
        self.enabled_direct_source_count + self.enabled_global_source_count
    }

    pub fn available_disabled_source_count(&self) -> (n: usize)
        requires
            self.available_disabled_direct_source_count + self.available_disabled_global_source_count
                <= usize::MAX,
        ensures
            n == self.available_disabled_direct_source_count
                + self.available_disabled_global_source_count,
    {
        self.available_disabled_direct_source_count + self.available_disabled_global_source_count
    }

    pub fn quality_gaps(&self) -> (gaps: Vec<String>)
        requires
            self.available_disabled_direct_source_count + self.available_disabled_global_source_count
                <= usize::MAX,
        ensures
            gaps@.map_values(|s: String| s@) == quality_gaps_of(
                self.enabled_category_counts@,
                self.enabled_direct_source_count as int,
                self.available_disabled_direct_source_count
                    + self.available_disabled_global_source_count,
            ),
    {
        quality_gaps(
            &self.enabled_category_counts,
            self.enabled_direct_source_count,
            self.available_disabled_source_count(),
        )
    }
}

} // verus!
