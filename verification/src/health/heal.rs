//! The `source_heal_event_v1` record written after a source fails.
use crate::hashing::{short_hash, short_hash_of};
use crate::numbers::{i64_to_dec, push_i64};
use crate::registry::Source;
use crate::text::{
    chars_contains, chars_of, contains, lowercase_of, push_char, push_str, to_lowercase,
};
use vstd::prelude::*;

verus! {

/// The failure class of a lower-cased error text.
pub open spec fn failure_class(lower: Seq<char>) -> Seq<char> {
    if contains(lower, "429"@) || contains(lower, "rate"@) || contains(
        lower,
        "too many requests"@,
    ) {
        "rate_limited"@
    } else if contains(lower, "timeout"@) || contains(lower, "timed out"@) {
        "timeout"@
    } else if contains(lower, "did not return an xml feed"@) || contains(lower, "parse"@)
        || contains(lower, "expected value"@) || contains(lower, "invalid json"@) {
        "parse_failed"@
    } else if contains(lower, "challenge"@) || contains(lower, "auth"@) {
        "auth_not_supported"@
    } else if contains(lower, "no usable"@) || contains(lower, "no_items"@) {
        "content_empty"@
    } else {
        "source_unreachable"@
    }
}

/// No rate-limit marker: neither "429", "rate" nor "too many requests".
pub open spec fn no_rate_limit_marker(lower: Seq<char>) -> bool {
    !contains(lower, "429"@) && !contains(lower, "rate"@) && !contains(lower, "too many requests"@)
}

/// No timeout marker: neither "timeout" nor "timed out".
pub open spec fn no_timeout_marker(lower: Seq<char>) -> bool {
    !contains(lower, "timeout"@) && !contains(lower, "timed out"@)
}

/// No parse marker.
pub open spec fn no_parse_marker(lower: Seq<char>) -> bool {
    !contains(lower, "did not return an xml feed"@) && !contains(lower, "parse"@) && !contains(
        lower,
        "expected value"@,
    ) && !contains(lower, "invalid json"@)
}

/// Law: below the parse markers, "challenge" or "auth" means
/// `auth_not_supported`, then "no usable" or "no_items" means `content_empty`,
/// and a text with none of the markers is `source_unreachable`.
pub proof fn lemma_failure_class_fallbacks(lower: Seq<char>)
    requires
        no_rate_limit_marker(lower),
        no_timeout_marker(lower),
        no_parse_marker(lower),
    ensures
        contains(lower, "challenge"@) || contains(lower, "auth"@) ==> failure_class(lower)
            == "auth_not_supported"@,
        !contains(lower, "challenge"@) && !contains(lower, "auth"@) && (contains(
            lower,
            "no usable"@,
        ) || contains(lower, "no_items"@)) ==> failure_class(lower) == "content_empty"@,
        !contains(lower, "challenge"@) && !contains(lower, "auth"@) && !contains(
            lower,
            "no usable"@,
        ) && !contains(lower, "no_items"@) ==> failure_class(lower) == "source_unreachable"@,
{
}

/// Law: the failure classes are tried in a fixed order of precedence. A
/// rate-limit marker always means `rate_limited`; otherwise a timeout marker
/// means `timeout`; otherwise a parse marker ("did not return an xml feed",
/// "parse", "expected value" as serde_json reports a body that is not JSON, or
/// "invalid json") means `parse_failed`.
pub proof fn lemma_failure_class_precedence(lower: Seq<char>)
    ensures
        !no_rate_limit_marker(lower) ==> failure_class(lower) == "rate_limited"@,
        no_rate_limit_marker(lower) && !no_timeout_marker(lower) ==> failure_class(lower)
            == "timeout"@,
        no_rate_limit_marker(lower) && no_timeout_marker(lower) && (contains(
            lower,
            "did not return an xml feed"@,
        ) || contains(lower, "parse"@) || contains(lower, "expected value"@) || contains(
            lower,
            "invalid json"@,
        )) ==> failure_class(lower) == "parse_failed"@,
{
}

/// Law: an error text that says a JSON value was expected, and carries no
/// rate-limit or timeout marker, is a parse failure, never an unreachable
/// source.
pub proof fn lemma_expected_value_is_parse_failure(lower: Seq<char>)
    requires
        contains(lower, "expected value"@),
        no_rate_limit_marker(lower),
        no_timeout_marker(lower),
    ensures
        failure_class(lower) == "parse_failed"@,
        failure_class(lower) != "source_unreachable"@,
{
    lemma_failure_class_precedence(lower);
    reveal_strlit("parse_failed");
    reveal_strlit("source_unreachable");
    assert("parse_failed"@.len() != "source_unreachable"@.len());
}

fn has(text: &[char], pattern: &str) -> (r: bool)
    ensures
        r == contains(text@, pattern@),
{
    let p = chars_of(pattern);
    chars_contains(text, p.as_slice())
}

/// Classifies an already lower-cased error text.
pub fn classify_lowered_failure(lower: &str) -> (r: &'static str)
    ensures
        r@ == failure_class(lower@),
{
    let t = chars_of(lower);
    let s = t.as_slice();
    if has(s, "429") || has(s, "rate") || has(s, "too many requests") {
        "rate_limited"
    } else if has(s, "timeout") || has(s, "timed out") {
        "timeout"
    } else if has(s, "did not return an xml feed") || has(s, "parse") || has(s, "expected value")
        || has(s, "invalid json") {
        "parse_failed"
    } else if has(s, "challenge") || has(s, "auth") {
        "auth_not_supported"
    } else if has(s, "no usable") || has(s, "no_items") {
        "content_empty"
    } else {
        "source_unreachable"
    }
}

/// Classifies an error text after lower-casing it.
pub fn classify_failure(error: &str) -> (r: &'static str)
    ensures
        r@ == failure_class(lowercase_of(error@)),
{
    let lower = to_lowercase(error);
    classify_lowered_failure(lower.as_str())
}

#[derive(Debug, Clone)]
pub struct SourceHealRecord {
    pub schema_version: String,
    pub heal_event_id: String,
    pub source_id: String,
    pub observed_at_ms: i64,
    pub failure_type: String,
    pub heal_action: String,
    pub attempt_count: usize,
    pub next_retry_at_ms: Option<i64>,
    pub heal_status: String,
}

impl SourceHealRecord {
    /// The heal record of a failed source: the failure class of its error, a
    /// retry with backoff, due one retry interval after the failure when an
    /// interval is configured.
    pub fn retry_after_failure(
        source: &Source,
        observed_at_ms: i64,
        error: &str,
        retry_interval_ms: Option<u64>,
    ) -> (r: Self)
        requires
            retry_interval_ms matches Some(interval) ==> i64::MIN <= observed_at_ms + (
            #[verifier::truncate] (interval as i64)) <= i64::MAX,
        ensures
            r.schema_version@ == "source_heal_event_v1"@,
            r.heal_event_id@ == "src_heal_"@ + short_hash_of(
                source.source_id@ + seq![':'] + i64_to_dec(observed_at_ms as int) + seq![':']
                    + failure_class(lowercase_of(error@)),
            ),
            r.source_id@ == source.source_id@,
            r.observed_at_ms == observed_at_ms,
            r.failure_type@ == failure_class(lowercase_of(error@)),
            r.heal_action@ == "retry_with_backoff"@,
            r.attempt_count == 1,
            r.next_retry_at_ms == (match retry_interval_ms {
                Some(interval) => Some((observed_at_ms + #[verifier::truncate] (interval as i64)) as i64),
                None => None,
            }),
            r.heal_status@ == "scheduled"@,
    {
        let failure_type = classify_failure(error);
        let next_retry_at_ms = match retry_interval_ms {
            Some(interval) => Some(observed_at_ms + #[verifier::truncate] (interval as i64)),
            None => None,
        };
        let mut basis = source.source_id.clone();
        push_char(&mut basis, ':');
        push_i64(&mut basis, observed_at_ms);
        push_char(&mut basis, ':');
        push_str(&mut basis, failure_type);
        let mut heal_event_id = "src_heal_".to_owned();
        let hash = short_hash(basis.as_str());
        push_str(&mut heal_event_id, hash.as_str());
        proof {
            assert(basis@ =~= source.source_id@ + seq![':'] + i64_to_dec(observed_at_ms as int)
                + seq![':'] + failure_class(lowercase_of(error@)));
        }
        SourceHealRecord {
            schema_version: "source_heal_event_v1".to_owned(),
            heal_event_id,
            source_id: source.source_id.clone(),
            observed_at_ms,
            failure_type: failure_type.to_owned(),
            heal_action: "retry_with_backoff".to_owned(),
            attempt_count: 1,
            next_retry_at_ms,
            heal_status: "scheduled".to_owned(),
        }
    }
}

} // verus!
