//! Which sources the flood controls apply to.
use crate::registry::Source;
use crate::text::str_eq;
use vstd::prelude::*;

verus! {

/// A live derivatives snapshot source: a funding REST source that is not the
/// manual funding-history backfill.
pub open spec fn is_derivatives_snapshot(source: &Source) -> bool {
    &&& source.source_category@ == "funding"@
    &&& source.fetch_method@ == "rest_api"@
    &&& !source.is_manual_backfill()
}

/// A community reaction source.
pub open spec fn is_community(source: &Source) -> bool {
    source.source_category@ == "social"@
}

pub fn is_derivatives_snapshot_source(source: &Source) -> (r: bool)
    ensures
        r == is_derivatives_snapshot(source),
{
    str_eq(source.source_category.as_str(), "funding") && str_eq(
        source.fetch_method.as_str(),
        "rest_api",
    ) && !source.is_manual_backfill_source()
}

pub fn is_community_source(source: &Source) -> (r: bool)
    ensures
        r == is_community(source),
{
    str_eq(source.source_category.as_str(), "social")
}

} // verus!
