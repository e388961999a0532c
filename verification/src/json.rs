//! Reading members of one JSON document, delegated to serde_json.
use vstd::prelude::*;

verus! {

/// The member `key` of the JSON object that `line` holds: `None` when `line` is
/// not a JSON object with that member, `Some(Some(s))` when the member is the
/// string `s`, `Some(None)` when it is some other JSON value.
pub uninterp spec fn json_member(line: Seq<char>, key: Seq<char>) -> Option<Option<Seq<char>>>;

pub open spec fn opt_opt_view(o: Option<Option<String>>) -> Option<Option<Seq<char>>> {
    match o {
        Some(Some(s)) => Some(Some(s@)),
        Some(None) => Some(None),
        None => None,
    }
}

/// Parses `line` with `serde_json::from_str::<serde_json::Value>` and reads the
/// member `key` with `Value::get` and `Value::as_str`. Trusted: the result is the
/// member that `json_member` names for `line` and `key`; JSON syntax itself is
/// left to serde_json.
#[verifier::external_body]
pub fn json_line_member(line: &str, key: &str) -> (r: Option<Option<String>>)
    ensures
        opt_opt_view(r) == json_member(line@, key@),
{
    match serde_json::from_str::<serde_json::Value>(line) {
        Ok(value) => value.get(key).map(|member| member.as_str().map(str::to_owned)),
        Err(_) => None,
    }
}

/// The string member `key` of `line`, if it is one.
pub open spec fn str_member(line: Seq<char>, key: Seq<char>) -> Option<Seq<char>> {
    match json_member(line, key) {
        Some(Some(s)) => Some(s),
        _ => None,
    }
}

/// The string member `key` of the JSON object in `line`.
pub fn json_str_member(line: &str, key: &str) -> (r: Option<String>)
    ensures
        match r {
            Some(s) => str_member(line@, key@) == Some(s@),
            None => str_member(line@, key@) is None,
        },
{
    match json_line_member(line, key) {
        Some(Some(s)) => Some(s),
        _ => None,
    }
}

} // verus!
