//! Normalization used for deduplication: canonical URLs, normalized text,
//! content fingerprints, SimHash and Hamming distance.
use crate::hashing::{hash_hex, hash_hex_of, token_hash64, token_hash_of};
use crate::text::{
    chars_of, chars_trim, collapse_whitespace, collapse_ws, split_words, string_of, trim, views,
    words,
};
use vstd::arithmetic::power2::{lemma2_to64, lemma_pow2_strictly_increases, lemma_pow2_unfold, pow2};
use vstd::prelude::*;

verus! {

/// Number of set bits.
pub open spec fn popcount(x: nat) -> nat
    decreases x,
{
    if x == 0 {
        0
    } else {
        x % 2 + popcount(x / 2)
    }
}

/// Number of differing bits between two 64-bit hashes.
pub fn hamming_distance(a: u64, b: u64) -> (d: u32)
    ensures
        d == popcount((a ^ b) as nat),
{
    let mut x: u64 = a ^ b;
    let mut count: u32 = 0;
    let ghost total = popcount(x as nat);
    proof {
        lemma2_to64();
        lemma_bits_left_bound(x as nat, 64);
    }
    while x > 0
        invariant
            count + popcount(x as nat) == total,
            count <= 64 - bits_left(x as nat),
            bits_left(x as nat) <= 64,
        decreases x,
    {
        proof {
            lemma_bits_left_halves(x as nat);
        }
        count = count + (x % 2) as u32;
        x = x / 2;
    }
    count
}

/// Number of binary digits of `x`.
pub open spec fn bits_left(x: nat) -> nat
    decreases x,
{
    if x == 0 {
        0
    } else {
        1 + bits_left(x / 2)
    }
}

proof fn lemma_bits_left_halves(x: nat)
    requires
        x > 0,
        x <= u64::MAX,
    ensures
        bits_left(x) == 1 + bits_left(x / 2),
        bits_left(x) <= 64,
{
    lemma2_to64();
    lemma_bits_left_bound(x, 64);
}

proof fn lemma_bits_left_bound(x: nat, n: nat)
    requires
        x < pow2(n),
    ensures
        bits_left(x) <= n,
    decreases n,
{
    if x > 0 {
        if n == 0 {
            vstd::arithmetic::power2::lemma_pow2_pos(0);
            assert(pow2(0) == 1) by {
                lemma2_to64();
            }
        } else {
            lemma_pow2_unfold(n);
            lemma_bits_left_bound(x / 2, (n - 1) as nat);
        }
    }
}

pub open spec fn is_ascii_alnum(c: char) -> bool {
    ('0' <= c && c <= '9') || ('a' <= c && c <= 'z') || ('A' <= c && c <= 'Z')
}

/// How one character is rewritten before dedup tokenization: ASCII letters are
/// lower-cased, other ASCII characters that are not letters or digits become
/// spaces, everything else is kept.
pub open spec fn dedup_char(c: char) -> char {
    if 'A' <= c && c <= 'Z' {
        ((c as u32) + 32) as char
    } else if (c as u32) < 128 && !is_ascii_alnum(c) {
        ' '
    } else {
        c
    }
}

/// The text compared for content duplicates: rewritten characters, split on
/// whitespace, re-joined with single spaces.
pub open spec fn normalized_text(s: Seq<char>) -> Seq<char> {
    collapse_ws(s.map_values(|c: char| dedup_char(c)))
}

fn dedup_char_exec(c: char) -> (r: char)
    ensures
        r == dedup_char(c),
{
    if 'A' <= c && c <= 'Z' {
        ((c as u8) + 32) as char
    } else if (c as u32) < 128 && !(('0' <= c && c <= '9') || ('a' <= c && c <= 'z')) {
        ' '
    } else {
        c
    }
}

/// Normalized text of character data.
pub fn normalize_chars(s: &[char]) -> (r: Vec<char>)
    ensures
        r@ == normalized_text(s@),
{
    let mut mapped: Vec<char> = Vec::new();
    let mut i: usize = 0;
    while i < s.len()
        invariant
            i <= s.len(),
            mapped@ == s@.take(i as int).map_values(|c: char| dedup_char(c)),
        decreases s.len() - i,
    {
        mapped.push(dedup_char_exec(s[i]));
        i = i + 1;
        assert(mapped@ =~= s@.take(i as int).map_values(|c: char| dedup_char(c)));
    }
    assert(s@.take(s.len() as int) =~= s@);
    collapse_whitespace(mapped.as_slice())
}

/// Normalized text of a string.
pub fn normalize_text_for_dedup(value: &str) -> (r: String)
    ensures
        r@ == normalized_text(value@),
{
    let v = chars_of(value);
    let n = normalize_chars(v.as_slice());
    string_of(n.as_slice())
}

/// Index of the first `#` at or after `i`, or the length.
pub open spec fn fragment_start(s: Seq<char>, i: int) -> int
    decreases s.len() - i,
{
    if i < 0 || i >= s.len() || s[i] == '#' {
        i
    } else {
        fragment_start(s, i + 1)
    }
}

/// The sequence without its trailing `/` characters.
pub open spec fn strip_trailing_slashes(s: Seq<char>) -> Seq<char>
    decreases s.len(),
{
    if s.len() > 0 && s.last() == '/' {
        strip_trailing_slashes(s.drop_last())
    } else {
        s
    }
}

/// `str::trim_end_matches('/')`.
pub fn trim_trailing_slashes(s: &str) -> (r: String)
    ensures
        r@ == strip_trailing_slashes(s@),
{
    let t = chars_of(s);
    let mut end: usize = t.len();
    assert(t@.take(end as int) =~= t@);
    while end > 0 && t[end - 1] == '/'
        invariant
            end <= t.len(),
            strip_trailing_slashes(t@.take(end as int)) == strip_trailing_slashes(t@),
        decreases end,
    {
        assert(t@.take(end as int).drop_last() =~= t@.take(end - 1));
        end = end - 1;
    }
    let r = crate::text::copy_range(t.as_slice(), 0, end);
    assert(r@ =~= t@.take(end as int));
    string_of(r.as_slice())
}

/// Canonical form of a URL: trimmed, without fragment, without trailing slashes.
pub open spec fn canonical_url_of(url: Seq<char>) -> Seq<char> {
    let t = trim(url);
    strip_trailing_slashes(t.take(fragment_start(t, 0)))
}

proof fn lemma_fragment_start_bounds(s: Seq<char>, i: int)
    requires
        0 <= i <= s.len(),
    ensures
        i <= fragment_start(s, i) <= s.len(),
    decreases s.len() - i,
{
    if i < s.len() && s[i] != '#' {
        lemma_fragment_start_bounds(s, i + 1);
    }
}

/// Canonical form of a URL.
pub fn canonical_url(url: &str) -> (r: String)
    ensures
        r@ == canonical_url_of(url@),
{
    let u = chars_of(url);
    let t = chars_trim(u.as_slice());
    let mut end: usize = 0;
    while end < t.len() && t[end] != '#'
        invariant
            end <= t.len(),
            fragment_start(t@, end as int) == fragment_start(t@, 0),
        decreases t.len() - end,
    {
        end = end + 1;
    }
    proof {
        lemma_fragment_start_bounds(t@, 0);
    }
    while end > 0 && t[end - 1] == '/'
        invariant
            end <= t.len(),
            strip_trailing_slashes(t@.take(end as int)) == strip_trailing_slashes(
                t@.take(fragment_start(t@, 0)),
            ),
        decreases end,
    {
        assert(t@.take(end as int).drop_last() =~= t@.take(end - 1));
        end = end - 1;
    }
    let r = crate::text::copy_range(t.as_slice(), 0, end);
    assert(r@ =~= t@.take(end as int));
    string_of(r.as_slice())
}

/// Weight of bit `b` over the hashes: +1 for each hash with the bit set, -1 otherwise.
pub open spec fn bit_weight(hs: Seq<u64>, b: nat) -> int
    decreases hs.len(),
{
    if hs.len() == 0 {
        0
    } else {
        bit_weight(hs.drop_last(), b) + (if (hs.last() as nat / pow2(b)) % 2 == 1 {
            1int
        } else {
            -1int
        })
    }
}

/// The low `k` bits of the SimHash: bit `b` is set when its weight is positive.
pub open spec fn simhash_bits(hs: Seq<u64>, k: nat) -> nat
    decreases k,
{
    if k == 0 {
        0
    } else {
        simhash_bits(hs, (k - 1) as nat) + (if bit_weight(hs, (k - 1) as nat) > 0 {
            pow2((k - 1) as nat)
        } else {
            0
        })
    }
}

/// 64-bit SimHash of token hashes.
pub open spec fn simhash(hs: Seq<u64>) -> nat {
    simhash_bits(hs, 64)
}

proof fn lemma_simhash_bits_bound(hs: Seq<u64>, k: nat)
    ensures
        simhash_bits(hs, k) < pow2(k),
    decreases k,
{
    if k == 0 {
        lemma2_to64();
    } else {
        lemma_simhash_bits_bound(hs, (k - 1) as nat);
        lemma_pow2_unfold(k);
    }
}

/// SimHash of the given token hashes.
pub fn simhash64(hs: &[u64]) -> (r: u64)
    ensures
        r == simhash(hs@),
{
    let mut acc: u64 = 0;
    let mut p: u64 = 1;
    let mut b: u32 = 0;
    proof {
        lemma2_to64();
    }
    while b < 64
        invariant
            b <= 64,
            b < 64 ==> p == pow2(b as nat),
            acc == simhash_bits(hs@, b as nat),
            acc < pow2(b as nat),
            pow2(64) == 0x1_0000_0000_0000_0000,
        decreases 64 - b,
    {
        let mut w: i128 = 0;
        let mut i: usize = 0;
        while i < hs.len()
            invariant
                b < 64,
                p == pow2(b as nat),
                p > 0,
                i <= hs.len(),
                w == bit_weight(hs@.take(i as int), b as nat),
                -(i as int) <= w <= i,
                hs.len() <= usize::MAX,
            decreases hs.len() - i,
        {
            assert(hs@.take(i + 1).drop_last() =~= hs@.take(i as int));
            if (hs[i] / p) % 2 == 1 {
                w = w + 1;
            } else {
                w = w - 1;
            }
            i = i + 1;
        }
        assert(hs@.take(hs.len() as int) =~= hs@);
        proof {
            lemma_simhash_bits_bound(hs@, (b + 1) as nat);
            lemma_pow2_unfold((b + 1) as nat);
            if b + 1 < 64 {
                lemma_pow2_strictly_increases((b + 1) as nat, 64);
            }
            assert(acc + p < pow2((b + 1) as nat));
            assert(pow2((b + 1) as nat) <= pow2(64));
        }
        if w > 0 {
            acc = acc + p;
        }
        if b < 63 {
            proof {
                lemma_pow2_strictly_increases((b + 1) as nat, 64);
            }
            p = p * 2;
        }
        b = b + 1;
    }
    acc
}

/// Hashes identifying an item's content and location.
#[derive(Debug, Clone)]
pub struct ContentFingerprint {
    pub canonical_url: String,
    pub canonical_url_hash: String,
    pub normalized_text_hash: String,
    pub simhash64: u64,
}

/// The text that is normalized for an item: title, a space, body.
pub open spec fn fingerprint_text(title: Seq<char>, body: Seq<char>) -> Seq<char> {
    normalized_text(title + seq![' '] + body)
}

/// Fingerprint of an item from its title, body and URL.
pub fn content_fingerprint(title: &str, body: &str, url: &str) -> (f: ContentFingerprint)
    ensures
        f.canonical_url@ == canonical_url_of(url@),
        f.canonical_url_hash@ == hash_hex_of(canonical_url_of(url@)),
        f.normalized_text_hash@ == hash_hex_of(fingerprint_text(title@, body@)),
        f.simhash64 == simhash(
            words(fingerprint_text(title@, body@)).map_values(|w: Seq<char>| token_hash_of(w)),
        ),
{
    let canonical = canonical_url(url);
    let canonical_hash = hash_hex(canonical.as_str());
    let mut joined = chars_of(title);
    joined.push(' ');
    let b = chars_of(body);
    let mut i: usize = 0;
    let ghost head = joined@;
    while i < b.len()
        invariant
            i <= b.len(),
            joined@ == head + b@.take(i as int),
        decreases b.len() - i,
    {
        joined.push(b[i]);
        i = i + 1;
        assert(joined@ =~= head + b@.take(i as int));
    }
    assert(b@.take(b.len() as int) =~= b@);
    assert(joined@ =~= title@ + seq![' '] + body@);
    let normalized = normalize_chars(joined.as_slice());
    let normalized_string = string_of(normalized.as_slice());
    let normalized_hash = hash_hex(normalized_string.as_str());
    let tokens = split_words(normalized.as_slice());
    let mut hs: Vec<u64> = Vec::new();
    let mut k: usize = 0;
    while k < tokens.len()
        invariant
            k <= tokens.len(),
            views(tokens@) == words(normalized@),
            hs@ == views(tokens@).take(k as int).map_values(|w: Seq<char>| token_hash_of(w)),
        decreases tokens.len() - k,
    {
        let t = string_of(tokens[k].as_slice());
        hs.push(token_hash64(t.as_str()));
        k = k + 1;
        assert(hs@ =~= views(tokens@).take(k as int).map_values(|w: Seq<char>| token_hash_of(w)));
    }
    assert(views(tokens@).take(tokens.len() as int) =~= views(tokens@));
    let sim = simhash64(hs.as_slice());
    ContentFingerprint {
        canonical_url: canonical,
        canonical_url_hash: canonical_hash,
        normalized_text_hash: normalized_hash,
        simhash64: sim,
    }
}

} // verus!
