//! Which sources count for an asset, and how its coverage is judged.
use crate::registry::{AppliesToAssets, Source};
use crate::str_map::{lookup, StrMap};
use crate::text::str_eq;
use vstd::prelude::*;

verus! {

/// Whether some string of `list` reads `text`.
pub open spec fn lists(list: Seq<String>, text: Seq<char>) -> bool {
    exists|j: int| 0 <= j < list.len() && list[j]@ == text
}

/// The source is dedicated to the asset.
pub open spec fn has_direct_asset(source: Source, asset: Seq<char>) -> bool {
    lists(source.direct_asset_list(), asset)
}

/// The source speaks about the asset: it covers the major-asset universe, or
/// names the asset.
pub open spec fn applies_to_asset(source: Source, asset: Seq<char>) -> bool {
    match source.applies_to_assets {
        AppliesToAssets::All(value) => value@ == "all_major_50"@,
        AppliesToAssets::List(values) => lists(values@, asset),
    }
}

/// Whether `list` holds `text`.
fn list_contains(list: &[String], text: &str) -> (r: bool)
    ensures
        r == lists(list@, text@),
{
    let mut j: usize = 0;
    while j < list.len()
        invariant
            j <= list.len(),
            forall|k: int| 0 <= k < j ==> list@[k]@ != text@,
        decreases list.len() - j,
    {
        if str_eq(list[j].as_str(), text) {
            return true;
        }
        j = j + 1;
    }
    false
}

pub fn source_has_direct_asset(source: &Source, asset: &str) -> (r: bool)
    ensures
        r == has_direct_asset(*source, asset@),
{
    list_contains(source.direct_assets(), asset)
}

pub fn source_applies_to_asset(source: &Source, asset: &str) -> (r: bool)
    ensures
        r == applies_to_asset(*source, asset@),
{
    match &source.applies_to_assets {
        AppliesToAssets::All(value) => str_eq(value.as_str(), "all_major_50"),
        AppliesToAssets::List(values) => list_contains(values.as_slice(), asset),
    }
}

/// Enabled dedicated sources first, then available-but-disabled ones, then
/// global sources that only match by symbol.
pub open spec fn coverage_status_of(
    enabled_direct_source_count: int,
    available_disabled_source_count: int,
    enabled_global_source_count: int,
) -> Seq<char> {
    if enabled_direct_source_count > 0 {
        "asset_specific_enabled"@
    } else if available_disabled_source_count > 0 {
        "asset_specific_available_disabled"@
    } else if enabled_global_source_count > 0 {
        "global_symbol_match_only"@
    } else {
        "missing_enabled_source"@
    }
}

pub fn coverage_status(
    enabled_direct_source_count: usize,
    available_disabled_source_count: usize,
    enabled_global_source_count: usize,
) -> (r: &'static str)
    ensures
        r@ == coverage_status_of(
            enabled_direct_source_count as int,
            available_disabled_source_count as int,
            enabled_global_source_count as int,
        ),
{
    if enabled_direct_source_count > 0 {
        "asset_specific_enabled"
    } else if available_disabled_source_count > 0 {
        "asset_specific_available_disabled"
    } else if enabled_global_source_count > 0 {
        "global_symbol_match_only"
    } else {
        "missing_enabled_source"
    }
}

/// The count stored for a category, zero when it has none.
pub open spec fn count_of(counts: Seq<(Seq<char>, usize)>, category: Seq<char>) -> nat {
    match lookup(counts, category) {
        Some(n) => n as nat,
        None => 0,
    }
}

/// The gaps of an asset's coverage, in this order: no enabled dedicated
/// source; no community-reaction inventory (no available-disabled source and
/// no enabled social source); no enabled news source.
pub open spec fn quality_gaps_of(
    enabled_category_counts: Seq<(Seq<char>, usize)>,
    enabled_direct_source_count: int,
    available_disabled_source_count: int,
) -> Seq<Seq<char>> {
    (if enabled_direct_source_count == 0 {
        seq!["missing_enabled_asset_specific_source"@]
    } else {
        seq![]
    }) + (if available_disabled_source_count == 0 && count_of(enabled_category_counts, "social"@)
        == 0 {
        seq!["missing_community_reaction_inventory"@]
    } else {
        seq![]
    }) + (if lookup(enabled_category_counts, "news"@) is None {
        seq!["missing_global_news_source"@]
    } else {
        seq![]
    })
}

/// Law: each gap is reported exactly when its condition holds: no enabled
/// dedicated source; no community-reaction inventory, meaning no
/// available-disabled source and no enabled social source (a non-zero count
/// under "social" fills it); no enabled news source.
pub proof fn lemma_quality_gap_membership(
    enabled_category_counts: Seq<(Seq<char>, usize)>,
    enabled_direct_source_count: int,
    available_disabled_source_count: int,
)
    ensures
        ({
            let gaps = quality_gaps_of(
                enabled_category_counts,
                enabled_direct_source_count,
                available_disabled_source_count,
            );
            &&& gaps.contains("missing_enabled_asset_specific_source"@)
                <==> enabled_direct_source_count == 0
            &&& gaps.contains("missing_community_reaction_inventory"@) <==> (
            available_disabled_source_count == 0 && !(lookup(enabled_category_counts, "social"@) matches Some(
                n,
            ) && n > 0))
            &&& gaps.contains("missing_global_news_source"@) <==> lookup(
                enabled_category_counts,
                "news"@,
            ) is None
        }),
{
    reveal_strlit("missing_enabled_asset_specific_source");
    reveal_strlit("missing_community_reaction_inventory");
    reveal_strlit("missing_global_news_source");
    let a: Seq<char> = "missing_enabled_asset_specific_source"@;
    let b: Seq<char> = "missing_community_reaction_inventory"@;
    let c: Seq<char> = "missing_global_news_source"@;
    assert(a.len() != b.len() && a.len() != c.len() && b.len() != c.len());
    let first: Seq<Seq<char>> = if enabled_direct_source_count == 0 {
        seq![a]
    } else {
        seq![]
    };
    let second: Seq<Seq<char>> = if available_disabled_source_count == 0 && count_of(
        enabled_category_counts,
        "social"@,
    ) == 0 {
        seq![b]
    } else {
        seq![]
    };
    let third: Seq<Seq<char>> = if lookup(enabled_category_counts, "news"@) is None {
        seq![c]
    } else {
        seq![]
    };
    assert(first.contains(a) <==> enabled_direct_source_count == 0) by {
        if enabled_direct_source_count == 0 {
            assert(first[0] == a);
        }
    }
    assert(second.contains(b) <==> (available_disabled_source_count == 0 && count_of(
        enabled_category_counts,
        "social"@,
    ) == 0)) by {
        if second.len() > 0 {
            assert(second[0] == b);
        }
    }
    assert(third.contains(c) <==> lookup(enabled_category_counts, "news"@) is None) by {
        if third.len() > 0 {
            assert(third[0] == c);
        }
    }
    let gaps = first + second + third;
    assert(gaps == quality_gaps_of(
        enabled_category_counts,
        enabled_direct_source_count,
        available_disabled_source_count,
    ));
    assert(gaps.contains(a) <==> first.contains(a)) by {
        if gaps.contains(a) {
            let i = choose|i: int| 0 <= i < gaps.len() && gaps[i] == a;
            if i >= first.len() {
                assert(gaps[i] == b || gaps[i] == c);
            }
        }
        if first.contains(a) {
            assert(gaps[0] == a);
        }
    }
    assert(gaps.contains(b) <==> second.contains(b)) by {
        if gaps.contains(b) {
            let i = choose|i: int| 0 <= i < gaps.len() && gaps[i] == b;
            assert(gaps[i] == a || gaps[i] == c || (first.len() <= i < first.len() + second.len()));
        }
        if second.contains(b) {
            assert(gaps[first.len() as int] == b);
        }
    }
    assert(gaps.contains(c) <==> third.contains(c)) by {
        if gaps.contains(c) {
            let i = choose|i: int| 0 <= i < gaps.len() && gaps[i] == c;
            assert(gaps[i] == a || gaps[i] == b || i >= first.len() + second.len());
        }
        if third.contains(c) {
            assert(gaps[(first.len() + second.len()) as int] == c);
        }
    }
}

pub fn quality_gaps(
    enabled_category_counts: &StrMap<usize>,
    enabled_direct_source_count: usize,
    available_disabled_source_count: usize,
) -> (gaps: Vec<String>)
    ensures
        gaps@.map_values(|s: String| s@) == quality_gaps_of(
            enabled_category_counts@,
            enabled_direct_source_count as int,
            available_disabled_source_count as int,
        ),
{
    let mut gaps: Vec<String> = Vec::new();
    let ghost first: Seq<Seq<char>> = if enabled_direct_source_count == 0 {
        seq!["missing_enabled_asset_specific_source"@]
    } else {
        seq![]
    };
    if enabled_direct_source_count == 0 {
        gaps.push("missing_enabled_asset_specific_source".to_owned());
    }
    assert(gaps@.map_values(|s: String| s@) =~= first);
    let social: usize = match enabled_category_counts.get("social") {
        Some(n) => *n,
        None => 0,
    };
    let ghost second: Seq<Seq<char>> = if available_disabled_source_count == 0 && count_of(
        enabled_category_counts@,
        "social"@,
    ) == 0 {
        seq!["missing_community_reaction_inventory"@]
    } else {
        seq![]
    };
    if available_disabled_source_count == 0 && social == 0 {
        gaps.push("missing_community_reaction_inventory".to_owned());
    }
    assert(gaps@.map_values(|s: String| s@) =~= first + second);
    let ghost third: Seq<Seq<char>> = if lookup(enabled_category_counts@, "news"@) is None {
        seq!["missing_global_news_source"@]
    } else {
        seq![]
    };
    if enabled_category_counts.get("news").is_none() {
        gaps.push("missing_global_news_source".to_owned());
    }
    assert(gaps@.map_values(|s: String| s@) =~= first + second + third);
    gaps
}

} // verus!
