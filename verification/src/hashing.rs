//! SHA-256 based identifiers: hex digests, short ids and 64-bit token hashes.
use crate::numbers::{all_hex_digits, hex_digit_value, hex_val, is_hex_digit, parse_hex_u64};
use sha2::Digest;
use vstd::arithmetic::div_mod::lemma_mod_breakdown;
use vstd::prelude::*;

verus! {

/// SHA-256 digest of the UTF-8 encoding of a text.
pub uninterp spec fn sha256_digest(text: Seq<char>) -> Seq<u8>;

/// Calls `sha2::Sha256::digest` on the UTF-8 bytes of `text`. Trusted: the result
/// is the digest that `sha256_digest` names for `text`, and it is 32 bytes long
/// (the output size of SHA-256); nothing else about its bytes is stated.
#[verifier::external_body]
fn sha256_text(text: &str) -> (digest: Vec<u8>)
    ensures
        digest@ == sha256_digest(text@),
        digest@.len() == 32,
{
    sha2::Sha256::digest(text.as_bytes()).to_vec()
}

pub open spec fn hex_char(n: nat) -> char {
    if n < 10 {
        (('0' as u32) + n) as char
    } else {
        (('a' as u32) + n - 10) as char
    }
}

/// Lower-case hexadecimal encoding, two characters per byte.
pub open spec fn hex_lower(bytes: Seq<u8>) -> Seq<char>
    decreases bytes.len(),
{
    if bytes.len() == 0 {
        seq![]
    } else {
        hex_lower(bytes.drop_last()) + seq![
            hex_char((bytes.last() / 16) as nat),
            hex_char((bytes.last() % 16) as nat),
        ]
    }
}

pub proof fn lemma_hex_lower_len(bytes: Seq<u8>)
    ensures
        hex_lower(bytes).len() == 2 * bytes.len(),
    decreases bytes.len(),
{
    if bytes.len() > 0 {
        lemma_hex_lower_len(bytes.drop_last());
    }
}

/// Lower-case hex SHA-256 of a text.
pub open spec fn hash_hex_of(text: Seq<char>) -> Seq<char> {
    hex_lower(sha256_digest(text))
}

/// First 24 hex characters of the SHA-256 of a text.
pub open spec fn short_hash_of(text: Seq<char>) -> Seq<char> {
    hash_hex_of(text).take(24)
}

fn hex_digit(n: u8) -> (c: char)
    requires
        n < 16,
    ensures
        c == hex_char(n as nat),
{
    if n < 10 {
        (('0' as u8) + n) as char
    } else {
        (('a' as u8) + n - 10) as char
    }
}

/// Lower-case hex encoding of bytes.
pub fn to_hex_lower(bytes: &[u8]) -> (s: Vec<char>)
    ensures
        s@ == hex_lower(bytes@),
{
    let mut s: Vec<char> = Vec::new();
    let mut i: usize = 0;
    assert(bytes@.take(0) =~= seq![]);
    while i < bytes.len()
        invariant
            i <= bytes.len(),
            s@ == hex_lower(bytes@.take(i as int)),
        decreases bytes.len() - i,
    {
        let b = bytes[i];
        s.push(hex_digit(b / 16));
        s.push(hex_digit(b % 16));
        assert(bytes@.take(i + 1).drop_last() =~= bytes@.take(i as int));
        i = i + 1;
        assert(s@ =~= hex_lower(bytes@.take(i as int)));
    }
    assert(bytes@.take(bytes.len() as int) =~= bytes@);
    s
}

/// Lower-case hex SHA-256 digest of `text` (64 characters).
pub fn hash_hex(text: &str) -> (h: String)
    ensures
        h@ == hash_hex_of(text@),
        h@.len() == 64,
{
    let digest = sha256_text(text);
    let hex = to_hex_lower(digest.as_slice());
    proof {
        lemma_hex_lower_len(digest@);
    }
    crate::text::string_of(hex.as_slice())
}

/// The first 24 hex characters of the SHA-256 digest of `text`.
pub fn short_hash(text: &str) -> (h: String)
    ensures
        h@ == short_hash_of(text@),
        h@.len() == 24,
{
    let digest = sha256_text(text);
    let hex = to_hex_lower(digest.as_slice());
    proof {
        lemma_hex_lower_len(digest@);
    }
    let head = crate::text::copy_range(hex.as_slice(), 0, 24);
    assert(head@ =~= hex@.take(24));
    crate::text::string_of(head.as_slice())
}

/// Big-endian value of the first `k` bytes.
pub open spec fn be_prefix(bytes: Seq<u8>, k: int) -> nat
    decreases k,
{
    if k <= 0 {
        0
    } else {
        be_prefix(bytes, k - 1) * 256 + (bytes[k - 1] as nat)
    }
}

pub open spec fn pow256(k: nat) -> nat
    decreases k,
{
    if k == 0 {
        1
    } else {
        256 * pow256((k - 1) as nat)
    }
}

proof fn lemma_be_prefix_bound(bytes: Seq<u8>, k: nat)
    requires
        k <= bytes.len(),
    ensures
        be_prefix(bytes, k as int) < pow256(k),
    decreases k,
{
    if k > 0 {
        lemma_be_prefix_bound(bytes, (k - 1) as nat);
        let p = be_prefix(bytes, k - 1);
        let q = pow256((k - 1) as nat);
        let b = bytes[k - 1] as nat;
        assert(p * 256 + b < 256 * q) by (nonlinear_arith)
            requires
                p < q,
                b < 256,
        ;
    }
}

/// 64-bit hash of a token: the first eight bytes of its SHA-256, big-endian.
pub open spec fn token_hash_of(token: Seq<char>) -> u64 {
    be_prefix(sha256_digest(token), 8) as u64
}

/// The first eight bytes of the SHA-256 of `token`, read as a big-endian `u64`.
pub fn token_hash64(token: &str) -> (h: u64)
    ensures
        h == token_hash_of(token@),
{
    let digest = sha256_text(token);
    let mut acc: u64 = 0;
    let mut i: usize = 0;
    proof {
        lemma_pow256_eight();
    }
    while i < 8
        invariant
            i <= 8,
            digest@.len() == 32,
            acc == be_prefix(digest@, i as int),
            pow256(8) == 0x1_0000_0000_0000_0000,
        decreases 8 - i,
    {
        proof {
            lemma_be_prefix_bound(digest@, (i + 1) as nat);
            lemma_pow256_mono((i + 1) as nat, 8);
        }
        acc = acc * 256 + digest[i] as u64;
        i = i + 1;
    }
    acc
}

proof fn lemma_pow256_eight()
    ensures
        pow256(8) == 0x1_0000_0000_0000_0000,
{
    assert(pow256(0) == 1);
    assert(pow256(1) == 256);
    assert(pow256(2) == 0x1_0000);
    assert(pow256(3) == 0x100_0000);
    assert(pow256(4) == 0x1_0000_0000);
    assert(pow256(5) == 0x100_0000_0000);
    assert(pow256(6) == 0x1_0000_0000_0000);
    assert(pow256(7) == 0x100_0000_0000_0000);
}

proof fn lemma_pow256_mono(a: nat, b: nat)
    requires
        a <= b,
    ensures
        pow256(a) <= pow256(b),
    decreases b,
{
    if a < b {
        lemma_pow256_mono(a, (b - 1) as nat);
        assert(pow256((b - 1) as nat) >= 1) by {
            lemma_pow256_pos((b - 1) as nat);
        }
    }
}

proof fn lemma_pow256_pos(a: nat)
    ensures
        pow256(a) >= 1,
    decreases a,
{
    if a > 0 {
        lemma_pow256_pos((a - 1) as nat);
    }
}

} // verus!

verus! {

/// The low `n` hex digits of `v`, most significant first, zero-padded.
pub open spec fn hex_fixed(v: nat, n: nat) -> Seq<char>
    decreases n,
{
    if n == 0 {
        seq![]
    } else {
        hex_fixed(v / 16, (n - 1) as nat).push(hex_char(v % 16))
    }
}

fn push_hex_fixed(out: &mut String, v: u64, n: u32)
    ensures
        final(out)@ == old(out)@ + hex_fixed(v as nat, n as nat),
    decreases n,
{
    if n > 0 {
        push_hex_fixed(out, v / 16, n - 1);
        crate::text::push_char(out, hex_digit((v % 16) as u8));
        assert(final(out)@ =~= old(out)@ + hex_fixed(v as nat, n as nat));
    } else {
        assert(final(out)@ =~= old(out)@ + hex_fixed(v as nat, n as nat));
    }
}


/// `16` to the power `n`.
pub open spec fn pow16(n: nat) -> nat
    decreases n,
{
    if n == 0 {
        1
    } else {
        16 * pow16((n - 1) as nat)
    }
}

proof fn lemma_pow16_positive(n: nat)
    ensures
        pow16(n) > 0,
    decreases n,
{
    if n > 0 {
        lemma_pow16_positive((n - 1) as nat);
    }
}

/// The value of hex digits depends only on those digits.
proof fn lemma_hex_val_prefix(s: Seq<char>, t: Seq<char>, b: int)
    requires
        0 <= b <= s.len(),
        b <= t.len(),
        forall|i: int| 0 <= i < b ==> s[i] == t[i],
    ensures
        hex_val(s, 0, b) == hex_val(t, 0, b),
    decreases b,
{
    if b > 0 {
        lemma_hex_val_prefix(s, t, b - 1);
    }
}

/// `hex_fixed(v, n)` is `n` hex digits whose value is `v` modulo `16^n`.
proof fn lemma_hex_fixed(v: nat, n: nat)
    ensures
        hex_fixed(v, n).len() == n,
        all_hex_digits(hex_fixed(v, n), 0, n as int),
        hex_val(hex_fixed(v, n), 0, n as int) == v % pow16(n),
    decreases n,
{
    lemma_pow16_positive(n);
    if n > 0 {
        let m = (n - 1) as nat;
        lemma_hex_fixed(v / 16, m);
        lemma_pow16_positive(m);
        let prev = hex_fixed(v / 16, m);
        let cur = hex_fixed(v, n);
        let d = v % 16;
        assert(hex_digit_value(hex_char(d)) == d);
        assert(is_hex_digit(hex_char(d)));
        lemma_hex_val_prefix(cur, prev, m as int);
        assert(hex_val(cur, 0, n as int) == hex_val(prev, 0, m as int) * 16 + d);
        lemma_mod_breakdown(v as int, 16, pow16(m) as int);
        assert(all_hex_digits(cur, 0, n as int)) by {
            assert forall|i: int| 0 <= i < n implies is_hex_digit(#[trigger] cur[i]) by {
                if i < m {
                    assert(cur[i] == prev[i]);
                }
            }
        }
    }
}

/// Law: the 16-digit hex form of a SimHash reads back as the same number.
pub proof fn lemma_simhash_hex_round_trip(v: u64)
    ensures
        parse_hex_u64(hex_fixed(v as nat, 16)) == Some(v),
{
    lemma_hex_fixed(v as nat, 16);
    assert(pow16(16) == 0x1_0000_0000_0000_0000) by {
        reveal_with_fuel(pow16, 17);
    }
    let h = hex_fixed(v as nat, 16);
    assert(is_hex_digit(h[0]));
}

/// `format!("{:016x}", v)`.
pub fn hex_u64_padded(v: u64) -> (s: String)
    ensures
        s@ == hex_fixed(v as nat, 16),
{
    let mut s = String::new();
    push_hex_fixed(&mut s, v, 16);
    assert(s@ =~= hex_fixed(v as nat, 16));
    s
}

} // verus!
