//! Loading dedup index records written by earlier runs.
use super::{empty_view, DedupStore, DedupView, KnownEvent, KnownSimhash};
use crate::json::{json_line_member, json_member, json_str_member, str_member};
use crate::numbers::parse_hex_u64;
use crate::text::{chars_of, copy_range, is_blank, str_is_blank, string_of};
use vstd::prelude::*;

verus! {

/// Index of the first `\n` at or after `i`, or the length.
pub open spec fn newline_at(s: Seq<char>, i: int) -> int
    decreases s.len() - i,
{
    if i < 0 || i >= s.len() || s[i] == '\n' {
        i
    } else {
        newline_at(s, i + 1)
    }
}

pub open spec fn strip_cr(line: Seq<char>) -> Seq<char> {
    if line.len() > 0 && line.last() == '\r' {
        line.drop_last()
    } else {
        line
    }
}

pub proof fn lemma_newline_at_bounds(s: Seq<char>, i: int)
    requires
        0 <= i <= s.len(),
    ensures
        i <= newline_at(s, i) <= s.len(),
    decreases s.len() - i,
{
    if i < s.len() && s[i] != '\n' {
        lemma_newline_at_bounds(s, i + 1);
    }
}

/// The lines of `s` from index `i` on, as `str::lines` yields them: split after
/// each `\n`, with the `\n` and a `\r` just before it removed, and no empty line
/// after a final `\n`.
pub open spec fn lines_from(s: Seq<char>, i: int) -> Seq<Seq<char>>
    decreases s.len() - i,
{
    if i < 0 || i >= s.len() {
        seq![]
    } else {
        let j = newline_at(s, i);
        proof {
            lemma_newline_at_bounds(s, i);
        }
        if j < s.len() {
            seq![strip_cr(s.subrange(i, j))] + lines_from(s, j + 1)
        } else {
            seq![s.subrange(i, s.len() as int)]
        }
    }
}

/// The content hash a record names: `normalized_content_hash`, or when that
/// member is absent `content_hash`; empty when the member read is not a string.
pub open spec fn record_content_hash(line: Seq<char>) -> Seq<char> {
    match json_member(line, "normalized_content_hash"@) {
        Some(Some(h)) => h,
        Some(None) => seq![],
        None => match json_member(line, "content_hash"@) {
            Some(Some(h)) => h,
            _ => seq![],
        },
    }
}

/// The index after reading one record.
pub open spec fn loaded_record(st: DedupView, line: Seq<char>) -> DedupView {
    let st1 = match str_member(line, "dedup_key"@) {
        Some(k) => DedupView { legacy_keys: st.legacy_keys.insert(k), ..st },
        None => st,
    };
    match str_member(line, "event_id"@) {
        None => st1,
        Some(id) => {
            let h = record_content_hash(line);
            let st2 = match str_member(line, "exact_source_key"@) {
                Some(k) => DedupView {
                    exact_source_keys: st1.exact_source_keys.insert(k, (id, h)),
                    ..st1
                },
                None => st1,
            };
            let st3 = match str_member(line, "canonical_url_hash"@) {
                Some(u) => DedupView {
                    canonical_url_hashes: st2.canonical_url_hashes.insert(u, id),
                    ..st2
                },
                None => st2,
            };
            let st4 = if h.len() > 0 {
                DedupView {
                    normalized_content_hashes: st3.normalized_content_hashes.insert(h, id),
                    ..st3
                }
            } else {
                st3
            };
            match str_member(line, "simhash64"@) {
                Some(x) => match parse_hex_u64(x) {
                    Some(v) => DedupView { simhashes: st4.simhashes.push((id, v)), ..st4 },
                    None => st4,
                },
                None => st4,
            }
        },
    }
}

/// The index after reading the given lines, skipping blank ones.
pub open spec fn loaded_lines(st: DedupView, lines: Seq<Seq<char>>) -> DedupView
    decreases lines.len(),
{
    if lines.len() == 0 {
        st
    } else {
        let next = if is_blank(lines[0]) {
            st
        } else {
            loaded_record(st, lines[0])
        };
        loaded_lines(next, lines.drop_first())
    }
}

/// The index after reading a JSONL text.
pub open spec fn loaded_jsonl(st: DedupView, raw: Seq<char>) -> DedupView {
    loaded_lines(st, lines_from(raw, 0))
}

impl DedupStore {
    /// An index holding the records of a JSONL text.
    pub fn from_jsonl(raw: &str) -> (s: Self)
        ensures
            s@ == loaded_jsonl(empty_view(), raw@),
    {
        let mut store = Self::new();
        store.load_jsonl(raw);
        store
    }

    /// Reads every non-blank line of a JSONL text as an index record; lines that
    /// are not JSON objects, or lack the members a key needs, add nothing.
    pub fn load_jsonl(&mut self, raw: &str)
        ensures
            final(self)@ == loaded_jsonl(old(self)@, raw@),
    {
        let s = chars_of(raw);
        let mut i: usize = 0;
        while i < s.len()
            invariant
                i <= s.len(),
                s@ == raw@,
                loaded_lines(self@, lines_from(s@, i as int)) == loaded_jsonl(old(self)@, raw@),
            decreases s.len() - i,
        {
            let mut j = i;
            while j < s.len() && s[j] != '\n'
                invariant
                    i <= j <= s.len(),
                    newline_at(s@, j as int) == newline_at(s@, i as int),
                decreases s.len() - j,
            {
                j = j + 1;
            }
            let mut end = j;
            if j < s.len() && end > i && s[end - 1] == '\r' {
                end = end - 1;
            }
            let piece = copy_range(s.as_slice(), i, end);
            proof {
                if j < s.len() {
                    assert(piece@ =~= strip_cr(s@.subrange(i as int, j as int)));
                } else {
                    assert(piece@ =~= s@.subrange(i as int, s@.len() as int));
                }
                assert(lines_from(s@, i as int)[0] == piece@);
                if j < s.len() {
                    assert(lines_from(s@, i as int).drop_first() =~= lines_from(s@, j + 1));
                } else {
                    assert(lines_from(s@, i as int).drop_first() =~= lines_from(
                        s@,
                        s@.len() as int,
                    ));
                }
            }
            let line = string_of(piece.as_slice());
            if !str_is_blank(line.as_str()) {
                self.load_record(line.as_str());
            }
            if j < s.len() {
                i = j + 1;
            } else {
                i = j;
            }
        }
    }

    /// Reads one index record.
    fn load_record(&mut self, line: &str)
        ensures
            final(self)@ == loaded_record(old(self)@, line@),
    {
        if let Some(dedup_key) = json_str_member(line, "dedup_key") {
            self.legacy_keys.insert(dedup_key);
        }
        let ghost st1 = self@;
        let event_id = match json_str_member(line, "event_id") {
            Some(id) => id,
            None => {
                return;
            },
        };
        let normalized_content_hash = match json_line_member(line, "normalized_content_hash") {
            Some(Some(h)) => h,
            Some(None) => String::new(),
            None => match json_str_member(line, "content_hash") {
                Some(h) => h,
                None => String::new(),
            },
        };
        proof {
            assert(normalized_content_hash@ == crate::dedup::store::load::record_content_hash(
                line@,
            ));
        }
        if let Some(exact_source_key) = json_str_member(line, "exact_source_key") {
            self.exact_source_keys.insert(
                exact_source_key,
                KnownEvent {
                    event_id: event_id.clone(),
                    normalized_content_hash: normalized_content_hash.clone(),
                },
            );
        }
        let ghost st2 = self@;
        if let Some(canonical_url_hash) = json_str_member(line, "canonical_url_hash") {
            self.canonical_url_hashes.insert(canonical_url_hash, event_id.clone());
        }
        let ghost st3 = self@;
        if !normalized_content_hash.as_str().is_empty() {
            self.normalized_content_hashes.insert(normalized_content_hash, event_id.clone());
        }
        let ghost st4 = self@;
        if let Some(simhash_text) = json_str_member(line, "simhash64") {
            let v = chars_of(simhash_text.as_str());
            if let Some(simhash64) = crate::numbers::parse_hex(v.as_slice()) {
                self.simhashes.push(KnownSimhash { event_id, simhash64 });
            }
        }
        proof {
            let expect = loaded_record(old(self)@, line@);
            assert(self@.exact_source_keys =~= expect.exact_source_keys);
            assert(self@.canonical_url_hashes =~= expect.canonical_url_hashes);
            assert(self@.normalized_content_hashes =~= expect.normalized_content_hashes);
            assert(self@.simhashes =~= expect.simhashes);
            assert(self@.legacy_keys =~= expect.legacy_keys);
        }
    }

    /// Marks an index shard as read; true when it had not been read before.
    pub fn mark_v2_prefix_loaded(&mut self, prefix: String) -> (fresh: bool)
        ensures
            fresh == !old(self)@.loaded_v2_prefixes.contains(prefix@),
            final(self)@ == (DedupView {
                loaded_v2_prefixes: old(self)@.loaded_v2_prefixes.insert(prefix@),
                ..old(self)@
            }),
    {
        let fresh = self.loaded_v2_prefixes.insert(prefix);
        proof {
            let expect = DedupView {
                loaded_v2_prefixes: old(self)@.loaded_v2_prefixes.insert(prefix@),
                ..old(self)@
            };
            assert(self@.exact_source_keys =~= expect.exact_source_keys);
            assert(self@.canonical_url_hashes =~= expect.canonical_url_hashes);
            assert(self@.normalized_content_hashes =~= expect.normalized_content_hashes);
            assert(self@.simhashes =~= expect.simhashes);
        }
        fresh
    }
}

} // verus!
