//! Text clean-up and timestamp reading for raw events.
use crate::numbers::parse_i64;
use crate::text::{
    chars_of, collapse_whitespace, collapse_ws, is_ws, lemma_collapse_ws, string_of, well_spaced,
    without_brackets,
};
use crate::time::{parse_rfc2822_ms, parse_rfc3339_ms, rfc2822_timestamp_ms, rfc3339_timestamp_ms};
use vstd::prelude::*;

verus! {

/// Whether the first `i` characters leave the reader inside a `<...>` tag.
pub open spec fn in_tag_after(s: Seq<char>, i: int) -> bool
    decreases i,
{
    if i <= 0 {
        false
    } else if s[i - 1] == '<' {
        true
    } else if s[i - 1] == '>' {
        false
    } else {
        in_tag_after(s, i - 1)
    }
}

/// The first `i` characters with markup removed: `<` opens a tag, `>` closes one,
/// and neither they nor characters inside a tag are kept.
pub open spec fn strip_tags_prefix(s: Seq<char>, i: int) -> Seq<char>
    decreases i,
{
    if i <= 0 {
        seq![]
    } else {
        let prev = strip_tags_prefix(s, i - 1);
        let c = s[i - 1];
        if c == '<' || c == '>' || in_tag_after(s, i - 1) {
            prev
        } else {
            prev.push(c)
        }
    }
}

/// Text with markup removed and whitespace runs collapsed to single spaces.
pub open spec fn cleaned(s: Seq<char>) -> Seq<char> {
    collapse_ws(strip_tags_prefix(s, s.len() as int))
}

/// Removes markup and collapses whitespace.
pub fn clean_text(value: &str) -> (r: String)
    ensures
        r@ == cleaned(value@),
{
    let s = chars_of(value);
    let mut output: Vec<char> = Vec::new();
    let mut in_tag = false;
    let mut i: usize = 0;
    while i < s.len()
        invariant
            i <= s.len(),
            s@ == value@,
            in_tag == in_tag_after(s@, i as int),
            output@ == strip_tags_prefix(s@, i as int),
        decreases s.len() - i,
    {
        let ch = s[i];
        if ch == '<' {
            in_tag = true;
        } else if ch == '>' {
            in_tag = false;
        } else if !in_tag {
            output.push(ch);
        }
        i = i + 1;
    }
    let collapsed = collapse_whitespace(output.as_slice());
    string_of(collapsed.as_slice())
}

/// Removing markup leaves no angle bracket.
proof fn lemma_strip_leaves_no_brackets(s: Seq<char>, i: int)
    requires
        0 <= i <= s.len(),
    ensures
        without_brackets(strip_tags_prefix(s, i)),
    decreases i,
{
    if i > 0 {
        lemma_strip_leaves_no_brackets(s, i - 1);
        let prev = strip_tags_prefix(s, i - 1);
        let c = s[i - 1];
        if !(c == '<' || c == '>' || in_tag_after(s, i - 1)) {
            assert forall|k: int| 0 <= k < prev.push(c).len() implies #[trigger] prev.push(c)[k]
                != '<' && prev.push(c)[k] != '>' by {
                if k < prev.len() {
                    assert(prev.push(c)[k] == prev[k]);
                }
            }
        }
    }
}

/// Text without angle brackets has no markup to remove.
proof fn lemma_strip_keeps_plain_text(s: Seq<char>, i: int)
    requires
        0 <= i <= s.len(),
        without_brackets(s),
    ensures
        !in_tag_after(s, i),
        strip_tags_prefix(s, i) == s.take(i),
    decreases i,
{
    if i > 0 {
        lemma_strip_keeps_plain_text(s, i - 1);
        assert(s[i - 1] != '<' && s[i - 1] != '>');
        assert(s.take(i - 1).push(s[i - 1]) =~= s.take(i));
    } else {
        assert(s.take(0) =~= Seq::<char>::empty());
    }
}

/// Law: cleaned text holds no angle bracket, is trimmed, has single spaces
/// between its words and no other whitespace, and cleaning it again changes
/// nothing.
pub proof fn lemma_cleaned_text(value: Seq<char>)
    ensures
        without_brackets(cleaned(value)),
        well_spaced(cleaned(value)),
        cleaned(value).len() > 0 ==> !is_ws(cleaned(value)[0]) && !is_ws(cleaned(value).last()),
        cleaned(cleaned(value)) == cleaned(value),
{
    let stripped = strip_tags_prefix(value, value.len() as int);
    lemma_strip_leaves_no_brackets(value, value.len() as int);
    lemma_collapse_ws(stripped);
    let r = cleaned(value);
    if r.len() > 0 {
        assert(!is_ws(r[0]));
        assert(!is_ws(r[r.len() - 1]));
    }
    lemma_strip_keeps_plain_text(r, r.len() as int);
    assert(r.take(r.len() as int) =~= r);
    lemma_collapse_ws(r);
}

/// The publication instant read from a feed value: a plain millisecond number,
/// else an RFC 2822 date-time, else an RFC 3339 date-time.
pub open spec fn published_at_ms_of(value: Seq<char>) -> Option<i64> {
    match parse_i64(value) {
        Some(v) => Some(v as i64),
        None => match rfc2822_timestamp_ms(value) {
            Some(v) => Some(v),
            None => rfc3339_timestamp_ms(value),
        },
    }
}

/// Reads a publication timestamp.
pub fn parse_published_at_ms(value: &str) -> (r: Option<i64>)
    ensures
        r == published_at_ms_of(value@),
{
    let v = chars_of(value);
    if let Some(timestamp_ms) = crate::numbers::parse_i64_decimal(v.as_slice()) {
        return Some(timestamp_ms);
    }
    match parse_rfc2822_ms(value) {
        Some(ms) => Some(ms),
        None => parse_rfc3339_ms(value),
    }
}

} // verus!
