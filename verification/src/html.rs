//! Checks on fetched HTML pages.
use crate::text::{contains, lowercase_of, str_contains, to_lowercase};
use vstd::prelude::*;

verus! {

/// A page is a bot challenge when, lower-cased, it mentions both
/// "just a moment" and "cloudflare".
pub open spec fn is_challenge_page(body: Seq<char>) -> bool {
    contains(lowercase_of(body), "just a moment"@) && contains(lowercase_of(body), "cloudflare"@)
}

pub fn looks_blocked(body: &str) -> (r: bool)
    ensures
        r == is_challenge_page(body@),
{
    let lower = to_lowercase(body);
    str_contains(lower.as_str(), "just a moment") && str_contains(lower.as_str(), "cloudflare")
}

} // verus!
