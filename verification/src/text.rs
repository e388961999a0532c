//! Character-level text utilities shared by the crawler's parsers and
//! normalizers. Strings are modelled by their `Seq<char>` views.
use vstd::prelude::*;

verus! {

/// Unicode `White_Space` code points, the set that `char::is_whitespace`,
/// `str::trim` and `str::split_whitespace` use.
pub open spec fn is_ws(c: char) -> bool {
    let u = c as u32;
    ||| (0x9 <= u && u <= 0xD)
    ||| u == 0x20
    ||| u == 0x85
    ||| u == 0xA0
    ||| u == 0x1680
    ||| (0x2000 <= u && u <= 0x200A)
    ||| u == 0x2028
    ||| u == 0x2029
    ||| u == 0x202F
    ||| u == 0x205F
    ||| u == 0x3000
}

/// True when every character is whitespace (the string trims to nothing).
pub open spec fn is_blank(s: Seq<char>) -> bool {
    forall|i: int| 0 <= i < s.len() ==> is_ws(#[trigger] s[i])
}

/// End (exclusive) of the run of non-whitespace characters starting at `i`.
pub open spec fn word_end(s: Seq<char>, i: int) -> int
    decreases s.len() - i,
{
    if i < 0 || i >= s.len() || is_ws(s[i]) {
        i
    } else {
        word_end(s, i + 1)
    }
}

pub proof fn lemma_word_end_bounds(s: Seq<char>, i: int)
    requires
        0 <= i <= s.len(),
    ensures
        i <= word_end(s, i) <= s.len(),
        i < s.len() && !is_ws(s[i]) ==> word_end(s, i) > i,
        forall|k: int| i <= k < word_end(s, i) ==> !is_ws(#[trigger] s[k]),
        word_end(s, i) < s.len() ==> is_ws(s[word_end(s, i)]),
    decreases s.len() - i,
{
    if i < s.len() && !is_ws(s[i]) {
        lemma_word_end_bounds(s, i + 1);
    }
}

/// The whitespace-separated words of `s` from index `i` on, as
/// `str::split_whitespace` yields them.
pub open spec fn words_from(s: Seq<char>, i: int) -> Seq<Seq<char>>
    decreases s.len() - i,
{
    if i < 0 || i >= s.len() {
        seq![]
    } else if is_ws(s[i]) {
        words_from(s, i + 1)
    } else {
        let e = word_end(s, i);
        proof {
            lemma_word_end_bounds(s, i);
        }
        if e <= i {
            seq![]
        } else {
            seq![s.subrange(i, e)] + words_from(s, e)
        }
    }
}

pub open spec fn words(s: Seq<char>) -> Seq<Seq<char>> {
    words_from(s, 0)
}

/// Joins the pieces with `sep` between consecutive pieces.
pub open spec fn join(pieces: Seq<Seq<char>>, sep: Seq<char>) -> Seq<char>
    decreases pieces.len(),
{
    if pieces.len() == 0 {
        seq![]
    } else if pieces.len() == 1 {
        pieces[0]
    } else {
        join(pieces.drop_last(), sep) + sep + pieces.last()
    }
}

/// `s.split_whitespace().collect::<Vec<_>>().join(" ")`.
pub open spec fn collapse_ws(s: Seq<char>) -> Seq<char> {
    join(words(s), seq![' '])
}

/// Index of the first non-whitespace character at or after `i` (or the length).
pub open spec fn skip_ws(s: Seq<char>, i: int) -> int
    decreases s.len() - i,
{
    if i < 0 || i >= s.len() || !is_ws(s[i]) {
        i
    } else {
        skip_ws(s, i + 1)
    }
}

/// Index just after the last non-whitespace character before `j` (or 0).
pub open spec fn trail_ws(s: Seq<char>, j: int) -> int
    decreases j,
{
    if j <= 0 || j > s.len() || !is_ws(s[j - 1]) {
        j
    } else {
        trail_ws(s, j - 1)
    }
}

/// `str::trim`.
pub open spec fn trim(s: Seq<char>) -> Seq<char> {
    let a = skip_ws(s, 0);
    let b = trail_ws(s, s.len() as int);
    if a < b {
        s.subrange(a, b)
    } else {
        seq![]
    }
}

pub open spec fn starts_with(s: Seq<char>, p: Seq<char>) -> bool {
    p.len() <= s.len() && s.subrange(0, p.len() as int) == p
}

pub open spec fn ends_with(s: Seq<char>, p: Seq<char>) -> bool {
    p.len() <= s.len() && s.subrange(s.len() - p.len(), s.len() as int) == p
}

pub open spec fn matches_at(s: Seq<char>, p: Seq<char>, i: int) -> bool {
    0 <= i && i + p.len() <= s.len() && s.subrange(i, i + p.len()) == p
}

/// `str::contains` with a string pattern.
pub open spec fn contains(s: Seq<char>, p: Seq<char>) -> bool {
    exists|i: int| matches_at(s, p, i)
}

/// Copies the characters of `s` into a vector.
pub fn chars_of(s: &str) -> (v: Vec<char>)
    ensures
        v@ == s@,
{
    let mut v: Vec<char> = Vec::new();
    for c in it: s.chars()
        invariant
            v@ == it.seq().take(it.index()),
    {
        v.push(c);
    }
    v
}

/// The lower-case form of a text, as `str::to_lowercase` computes it.
pub uninterp spec fn lowercase_of(text: Seq<char>) -> Seq<char>;

/// Calls `str::to_lowercase`. Trusted: the result is the text that
/// `lowercase_of` names for `text`; the Unicode case mapping is not stated.
#[verifier::external_body]
pub fn to_lowercase(text: &str) -> (r: String)
    ensures
        r@ == lowercase_of(text@),
{
    text.to_lowercase()
}

/// Appends one character to a `String` (`String::push`).
#[verifier::external_body]
pub fn push_char(s: &mut String, c: char)
    ensures
        final(s)@ == old(s)@.push(c),
{
    s.push(c);
}

/// Appends a string slice to a `String` (`String::push_str`).
#[verifier::external_body]
pub fn push_str(s: &mut String, t: &str)
    ensures
        final(s)@ == old(s)@ + t@,
{
    s.push_str(t);
}

/// Builds a `String` holding the given characters.
pub fn string_of(v: &[char]) -> (s: String)
    ensures
        s@ == v@,
{
    let mut s = String::new();
    let mut i: usize = 0;
    while i < v.len()
        invariant
            i <= v.len(),
            s@ == v@.subrange(0, i as int),
        decreases v.len() - i,
    {
        push_char(&mut s, v[i]);
        i = i + 1;
        assert(s@ =~= v@.subrange(0, i as int));
    }
    assert(v@.subrange(0, v.len() as int) =~= v@);
    s
}

/// Concatenates two string slices.
pub fn concat2(a: &str, b: &str) -> (s: String)
    ensures
        s@ == a@ + b@,
{
    let mut s = a.to_owned();
    push_str(&mut s, b);
    s
}

/// Concatenates three string slices.
pub fn concat3(a: &str, b: &str, c: &str) -> (s: String)
    ensures
        s@ == a@ + b@ + c@,
{
    let mut s = a.to_owned();
    push_str(&mut s, b);
    push_str(&mut s, c);
    s
}

/// `char::is_whitespace`.
pub fn is_whitespace(c: char) -> (b: bool)
    ensures
        b == is_ws(c),
{
    let u = c as u32;
    (0x9 <= u && u <= 0xD) || u == 0x20 || u == 0x85 || u == 0xA0 || u == 0x1680 || (0x2000
        <= u && u <= 0x200A) || u == 0x2028 || u == 0x2029 || u == 0x202F || u == 0x205F || u
        == 0x3000
}

/// Equality of character sequences.
pub fn chars_eq(a: &[char], b: &[char]) -> (r: bool)
    ensures
        r == (a@ == b@),
{
    if a.len() != b.len() {
        return false;
    }
    let mut i: usize = 0;
    while i < a.len()
        invariant
            a.len() == b.len(),
            i <= a.len(),
            forall|k: int| 0 <= k < i ==> a@[k] == b@[k],
        decreases a.len() - i,
    {
        if a[i] != b[i] {
            return false;
        }
        i = i + 1;
    }
    assert(a@ =~= b@);
    true
}

/// Equality of string slices.
pub fn str_eq(a: &str, b: &str) -> (r: bool)
    ensures
        r == (a@ == b@),
{
    let va = chars_of(a);
    let vb = chars_of(b);
    chars_eq(va.as_slice(), vb.as_slice())
}

/// Whether `p` occurs in `s` at index `i`.
pub fn chars_match_at(s: &[char], p: &[char], i: usize) -> (r: bool)
    ensures
        r == matches_at(s@, p@, i as int),
{
    if i > s.len() || p.len() > s.len() - i {
        return false;
    }
    let mut k: usize = 0;
    while k < p.len()
        invariant
            i + p.len() <= s.len(),
            k <= p.len(),
            forall|m: int| 0 <= m < k ==> s@[i + m] == p@[m],
        decreases p.len() - k,
    {
        if s[i + k] != p[k] {
            assert(s@.subrange(i as int, i + p.len())[k as int] != p@[k as int]);
            return false;
        }
        k = k + 1;
    }
    assert(s@.subrange(i as int, i + p.len()) =~= p@);
    true
}

/// `str::starts_with` on character sequences.
pub fn chars_starts_with(s: &[char], p: &[char]) -> (r: bool)
    ensures
        r == starts_with(s@, p@),
{
    chars_match_at(s, p, 0)
}

/// `str::ends_with` on character sequences.
pub fn chars_ends_with(s: &[char], p: &[char]) -> (r: bool)
    ensures
        r == ends_with(s@, p@),
{
    if p.len() > s.len() {
        return false;
    }
    chars_match_at(s, p, s.len() - p.len())
}

/// `str::contains` on character sequences.
pub fn chars_contains(s: &[char], p: &[char]) -> (r: bool)
    ensures
        r == contains(s@, p@),
{
    if p.len() > s.len() {
        assert forall|i: int| !matches_at(s@, p@, i) by {}
        return false;
    }
    if p.len() == 0 {
        assert(s@.subrange(0, 0) =~= p@);
        assert(matches_at(s@, p@, 0));
        return true;
    }
    let last = s.len() - p.len();
    let mut i: usize = 0;
    while i <= last
        invariant
            last == s.len() - p.len(),
            1 <= p.len() <= s.len(),
            i <= last + 1,
            forall|j: int| 0 <= j < i ==> !matches_at(s@, p@, j),
        decreases last + 1 - i,
    {
        if chars_match_at(s, p, i) {
            return true;
        }
        i = i + 1;
    }
    assert forall|j: int| !matches_at(s@, p@, j) by {
        if 0 <= j < i {
        }
    }
    false
}

/// `str::contains` on string slices.
pub fn str_contains(s: &str, p: &str) -> (r: bool)
    ensures
        r == contains(s@, p@),
{
    let vs = chars_of(s);
    let vp = chars_of(p);
    chars_contains(vs.as_slice(), vp.as_slice())
}

/// `str::starts_with` on string slices.
pub fn str_starts_with(s: &str, p: &str) -> (r: bool)
    ensures
        r == starts_with(s@, p@),
{
    let vs = chars_of(s);
    let vp = chars_of(p);
    chars_starts_with(vs.as_slice(), vp.as_slice())
}

/// `s.trim().is_empty()` on character sequences.
pub fn chars_is_blank(s: &[char]) -> (r: bool)
    ensures
        r == is_blank(s@),
{
    let mut i: usize = 0;
    while i < s.len()
        invariant
            i <= s.len(),
            forall|k: int| 0 <= k < i ==> is_ws(#[trigger] s@[k]),
        decreases s.len() - i,
    {
        if !is_whitespace(s[i]) {
            return false;
        }
        i = i + 1;
    }
    true
}

/// `s.trim().is_empty()`.
pub fn str_is_blank(s: &str) -> (r: bool)
    ensures
        r == is_blank(s@),
{
    let v = chars_of(s);
    chars_is_blank(v.as_slice())
}

} // verus!

verus! {

/// The views of a sequence of character vectors.
pub open spec fn views(v: Seq<Vec<char>>) -> Seq<Seq<char>> {
    v.map_values(|w: Vec<char>| w@)
}

/// Copies `s[a..b]` into a fresh vector.
pub fn copy_range(s: &[char], a: usize, b: usize) -> (r: Vec<char>)
    requires
        a <= b <= s.len(),
    ensures
        r@ == s@.subrange(a as int, b as int),
{
    let mut r: Vec<char> = Vec::new();
    let mut k = a;
    while k < b
        invariant
            a <= k <= b <= s.len(),
            r@ == s@.subrange(a as int, k as int),
        decreases b - k,
    {
        r.push(s[k]);
        k = k + 1;
        assert(r@ =~= s@.subrange(a as int, k as int));
    }
    r
}

/// `str::split_whitespace` on a character sequence.
pub fn split_words(s: &[char]) -> (ws: Vec<Vec<char>>)
    ensures
        views(ws@) == words(s@),
{
    let mut out: Vec<Vec<char>> = Vec::new();
    let mut i: usize = 0;
    assert(views(out@) =~= seq![]);
    while i < s.len()
        invariant
            i <= s.len(),
            views(out@) + words_from(s@, i as int) == words(s@),
        decreases s.len() - i,
    {
        if is_whitespace(s[i]) {
            i = i + 1;
        } else {
            let mut j = i;
            while j < s.len() && !is_whitespace(s[j])
                invariant
                    i <= j <= s.len(),
                    word_end(s@, i as int) == word_end(s@, j as int),
                decreases s.len() - j,
            {
                j = j + 1;
            }
            proof {
                lemma_word_end_bounds(s@, i as int);
            }
            let w = copy_range(s, i, j);
            let ghost before = views(out@);
            out.push(w);
            assert(views(out@) =~= before.push(s@.subrange(i as int, j as int)));
            assert(words_from(s@, i as int) == seq![s@.subrange(i as int, j as int)]
                + words_from(s@, j as int));
            assert(views(out@) + words_from(s@, j as int) =~= before + words_from(
                s@,
                i as int,
            ));
            i = j;
        }
    }
    assert(views(out@) + words_from(s@, i as int) =~= views(out@));
    out
}

/// Joins words with single spaces.
pub fn join_words(ws: &Vec<Vec<char>>) -> (r: Vec<char>)
    ensures
        r@ == join(views(ws@), seq![' ']),
{
    let mut r: Vec<char> = Vec::new();
    let mut k: usize = 0;
    assert(views(ws@).take(0) =~= seq![]);
    while k < ws.len()
        invariant
            k <= ws.len(),
            r@ == join(views(ws@).take(k as int), seq![' ']),
        decreases ws.len() - k,
    {
        let ghost prev = r@;
        if k > 0 {
            r.push(' ');
        }
        let w = &ws[k];
        let mut m: usize = 0;
        let ghost mid = r@;
        while m < w.len()
            invariant
                m <= w.len(),
                r@ == mid + w@.subrange(0, m as int),
            decreases w.len() - m,
        {
            r.push(w[m]);
            m = m + 1;
            assert(r@ =~= mid + w@.subrange(0, m as int));
        }
        assert(w@.subrange(0, w@.len() as int) =~= w@);
        let ghost t = views(ws@).take(k + 1);
        assert(t.drop_last() =~= views(ws@).take(k as int));
        assert(t.last() == ws@[k as int]@);
        if k == 0 {
            assert(t.len() == 1);
            assert(r@ =~= t[0]);
        } else {
            assert(r@ =~= prev + seq![' '] + t.last());
        }
        k = k + 1;
    }
    assert(views(ws@).take(ws.len() as int) =~= views(ws@));
    r
}

/// `s.split_whitespace().collect::<Vec<_>>().join(" ")`.
pub fn collapse_whitespace(s: &[char]) -> (r: Vec<char>)
    ensures
        r@ == collapse_ws(s@),
{
    let ws = split_words(s);
    join_words(&ws)
}

} // verus!

verus! {

/// Lexicographic order of strings by code point (the order of `String`'s `Ord`).
pub open spec fn str_lt(a: Seq<char>, b: Seq<char>) -> bool
    decreases a.len(),
{
    if a.len() == 0 {
        b.len() > 0
    } else if b.len() == 0 {
        false
    } else if a[0] != b[0] {
        (a[0] as int) < (b[0] as int)
    } else {
        str_lt(a.drop_first(), b.drop_first())
    }
}

pub proof fn lemma_str_lt_irreflexive(a: Seq<char>)
    ensures
        !str_lt(a, a),
    decreases a.len(),
{
    if a.len() > 0 {
        lemma_str_lt_irreflexive(a.drop_first());
    }
}

pub proof fn lemma_str_lt_trichotomy(a: Seq<char>, b: Seq<char>)
    ensures
        str_lt(a, b) || a == b || str_lt(b, a),
        !(str_lt(a, b) && str_lt(b, a)),
    decreases a.len(),
{
    if a.len() > 0 && b.len() > 0 && a[0] == b[0] {
        lemma_str_lt_trichotomy(a.drop_first(), b.drop_first());
        if a.drop_first() == b.drop_first() {
            assert(a =~= seq![a[0]] + a.drop_first());
            assert(b =~= seq![b[0]] + b.drop_first());
        }
    } else if a.len() == 0 && b.len() == 0 {
        assert(a =~= b);
    } else if a.len() > 0 && b.len() > 0 {
        let x = a[0] as int;
        let y = b[0] as int;
        assert(x != y);
    }
}

pub proof fn lemma_str_lt_transitive(a: Seq<char>, b: Seq<char>, c: Seq<char>)
    requires
        str_lt(a, b),
        str_lt(b, c),
    ensures
        str_lt(a, c),
    decreases a.len(),
{
    if a.len() > 0 && b.len() > 0 && c.len() > 0 && a[0] == b[0] && b[0] == c[0] {
        lemma_str_lt_transitive(a.drop_first(), b.drop_first(), c.drop_first());
    }
}

/// Three-way comparison of character sequences: negative, zero or positive as
/// `a` sorts before, equal to, or after `b`.
pub fn compare_chars(a: &[char], b: &[char]) -> (r: i8)
    ensures
        (r == 0) == (a@ == b@),
        (r < 0) == str_lt(a@, b@),
        (r > 0) == str_lt(b@, a@),
{
    let mut i: usize = 0;
    proof {
        lemma_str_lt_trichotomy(a@, b@);
        assert(a@.skip(0) =~= a@);
        assert(b@.skip(0) =~= b@);
    }
    while i < a.len() && i < b.len()
        invariant
            i <= a.len(),
            i <= b.len(),
            forall|k: int| 0 <= k < i ==> a@[k] == b@[k],
            str_lt(a@, b@) == str_lt(a@.skip(i as int), b@.skip(i as int)),
            str_lt(b@, a@) == str_lt(b@.skip(i as int), a@.skip(i as int)),
        decreases a.len() - i,
    {
        if a[i] != b[i] {
            assert(a@.skip(i as int)[0] == a@[i as int]);
            assert(b@.skip(i as int)[0] == b@[i as int]);
            if a[i] < b[i] {
                return -1;
            } else {
                return 1;
            }
        }
        assert(a@.skip(i as int).drop_first() =~= a@.skip(i + 1));
        assert(b@.skip(i as int).drop_first() =~= b@.skip(i + 1));
        i = i + 1;
    }
    if a.len() == b.len() {
        assert(a@ =~= b@);
        0
    } else if a.len() < b.len() {
        assert(a@.skip(i as int).len() == 0);
        -1
    } else {
        assert(b@.skip(i as int).len() == 0);
        1
    }
}

/// Whether an optional string holds exactly `lit`.
pub open spec fn opt_is(o: Option<String>, lit: Seq<char>) -> bool {
    match o {
        Some(v) => v@ == lit,
        None => false,
    }
}

/// `o.as_deref() == Some(lit)`.
pub fn opt_str_is(o: &Option<String>, lit: &str) -> (r: bool)
    ensures
        r == opt_is(*o, lit@),
{
    match o {
        Some(v) => str_eq(v.as_str(), lit),
        None => false,
    }
}

} // verus!

verus! {

pub proof fn lemma_skip_ws_bounds(s: Seq<char>, i: int)
    requires
        0 <= i <= s.len(),
    ensures
        i <= skip_ws(s, i) <= s.len(),
    decreases s.len() - i,
{
    if i < s.len() && is_ws(s[i]) {
        lemma_skip_ws_bounds(s, i + 1);
    }
}

pub proof fn lemma_trail_ws_bounds(s: Seq<char>, j: int)
    requires
        0 <= j <= s.len(),
    ensures
        0 <= trail_ws(s, j) <= j,
    decreases j,
{
    if j > 0 && is_ws(s[j - 1]) {
        lemma_trail_ws_bounds(s, j - 1);
    }
}

/// `str::trim` on a character sequence.
pub fn chars_trim(s: &[char]) -> (r: Vec<char>)
    ensures
        r@ == trim(s@),
{
    let mut a: usize = 0;
    while a < s.len() && is_whitespace(s[a])
        invariant
            a <= s.len(),
            skip_ws(s@, a as int) == skip_ws(s@, 0),
        decreases s.len() - a,
    {
        a = a + 1;
    }
    let mut b: usize = s.len();
    while b > 0 && is_whitespace(s[b - 1])
        invariant
            b <= s.len(),
            trail_ws(s@, b as int) == trail_ws(s@, s.len() as int),
        decreases b,
    {
        b = b - 1;
    }
    if a < b {
        copy_range(s, a, b)
    } else {
        Vec::new()
    }
}

} // verus!

verus! {

/// Whitespace stands only as single spaces between two other characters: the
/// text is trimmed and its words are separated by one space each.
pub open spec fn well_spaced(r: Seq<char>) -> bool {
    forall|i: int|
        0 <= i < r.len() && #[trigger] is_ws(r[i]) ==> r[i] == ' ' && 0 < i < r.len() - 1
            && !is_ws(r[i - 1]) && !is_ws(r[i + 1])
}

/// Pieces that are non-empty and hold no whitespace.
pub open spec fn solid_pieces(p: Seq<Seq<char>>) -> bool {
    forall|j: int, k: int|
        0 <= j < p.len() && 0 <= k < p[j].len() ==> !is_ws(#[trigger] p[j][k]) && p[j].len() > 0
}

/// No piece holds an angle bracket.
pub open spec fn pieces_without_brackets(p: Seq<Seq<char>>) -> bool {
    forall|j: int, k: int|
        0 <= j < p.len() && 0 <= k < p[j].len() ==> #[trigger] p[j][k] != '<' && p[j][k] != '>'
}

pub open spec fn without_brackets(s: Seq<char>) -> bool {
    forall|i: int| 0 <= i < s.len() ==> #[trigger] s[i] != '<' && s[i] != '>'
}

/// Joining solid pieces with single spaces gives well-spaced text that starts
/// with the first piece and ends with the last, and keeps out angle brackets.
pub proof fn lemma_join_solid(p: Seq<Seq<char>>)
    requires
        solid_pieces(p),
        forall|j: int| 0 <= j < p.len() ==> (#[trigger] p[j]).len() > 0,
    ensures
        well_spaced(join(p, seq![' '])),
        p.len() > 0 ==> join(p, seq![' ']).len() > 0 && !is_ws(join(p, seq![' '])[0])
            && !is_ws(join(p, seq![' ']).last()),
        pieces_without_brackets(p) ==> without_brackets(join(p, seq![' '])),
    decreases p.len(),
{
    let r = join(p, seq![' ']);
    if p.len() == 1 {
        assert(r == p[0]);
        assert forall|k: int| 0 <= k < r.len() implies !is_ws(#[trigger] r[k]) by {
            assert(r[k] == p[0][k]);
        }
        if pieces_without_brackets(p) {
            assert forall|i: int| 0 <= i < r.len() implies #[trigger] r[i] != '<' && r[i] != '>' by {
                assert(r[i] == p[0][i]);
            }
        }
    } else if p.len() >= 2 {
        let init = p.drop_last();
        let last = p.last();
        assert(solid_pieces(init)) by {
            assert forall|j: int, k: int| 0 <= j < init.len() && 0 <= k < init[j].len() implies !is_ws(
                #[trigger] init[j][k],
            ) && init[j].len() > 0 by {
                assert(init[j] == p[j]);
            }
        }
        assert forall|j: int| 0 <= j < init.len() implies (#[trigger] init[j]).len() > 0 by {
            assert(init[j] == p[j]);
        }
        lemma_join_solid(init);
        let q = join(init, seq![' ']);
        assert(r == q + seq![' '] + last);
        assert(last == p[p.len() - 1]);
        assert(last.len() > 0);
        assert forall|k: int| 0 <= k < last.len() implies !is_ws(#[trigger] last[k]) by {
            assert(last[k] == p[p.len() - 1][k]);
        }
        assert forall|i: int| 0 <= i < r.len() && #[trigger] is_ws(r[i]) implies r[i] == ' ' && 0 < i
            < r.len() - 1 && !is_ws(r[i - 1]) && !is_ws(r[i + 1]) by {
            if i < q.len() {
                assert(r[i] == q[i]);
                assert(is_ws(q[i]));
                assert(r[i - 1] == q[i - 1]);
                assert(r[i + 1] == q[i + 1]);
            } else if i == q.len() {
                assert(r[i - 1] == q[q.len() - 1]);
                assert(r[i + 1] == last[0]);
            } else {
                assert(r[i] == last[i - q.len() - 1]);
            }
        }
        assert(r[0] == q[0]);
        assert(r.last() == last[last.len() - 1]);
        if pieces_without_brackets(p) {
            assert(pieces_without_brackets(init)) by {
                assert forall|j: int, k: int| 0 <= j < init.len() && 0 <= k < init[j].len() implies #[trigger] init[j][k]
                    != '<' && init[j][k] != '>' by {
                    assert(init[j] == p[j]);
                }
            }
            assert forall|i: int| 0 <= i < r.len() implies #[trigger] r[i] != '<' && r[i] != '>' by {
                if i < q.len() {
                    assert(r[i] == q[i]);
                } else if i > q.len() {
                    assert(r[i] == last[i - q.len() - 1]);
                    assert(last[i - q.len() - 1] == p[p.len() - 1][i - q.len() - 1]);
                }
            }
        }
    }
}

/// The words of `s` from `i` on are solid, and hold no angle bracket when `s`
/// holds none.
pub proof fn lemma_words_solid(s: Seq<char>, i: int)
    requires
        0 <= i <= s.len(),
    ensures
        solid_pieces(words_from(s, i)),
        forall|j: int| 0 <= j < words_from(s, i).len() ==> (#[trigger] words_from(s, i)[j]).len() > 0,
        without_brackets(s) ==> pieces_without_brackets(words_from(s, i)),
    decreases s.len() - i,
{
    if i < s.len() {
        if is_ws(s[i]) {
            lemma_words_solid(s, i + 1);
        } else {
            let e = word_end(s, i);
            lemma_word_end_bounds(s, i);
            lemma_words_solid(s, e);
            let piece = s.subrange(i, e);
            let w = words_from(s, i);
            let rest = words_from(s, e);
            assert(w == seq![piece] + rest);
            assert forall|j: int, k: int| 0 <= j < w.len() && 0 <= k < w[j].len() implies !is_ws(
                #[trigger] w[j][k],
            ) && w[j].len() > 0 by {
                if j == 0 {
                    assert(w[0][k] == s[i + k]);
                } else {
                    assert(w[j] == rest[j - 1]);
                }
            }
            assert forall|j: int| 0 <= j < w.len() implies (#[trigger] w[j]).len() > 0 by {
                if j > 0 {
                    assert(w[j] == rest[j - 1]);
                }
            }
            if without_brackets(s) {
                assert forall|j: int, k: int| 0 <= j < w.len() && 0 <= k < w[j].len() implies #[trigger] w[j][k]
                    != '<' && w[j][k] != '>' by {
                    if j == 0 {
                        assert(w[0][k] == s[i + k]);
                    } else {
                        assert(w[j] == rest[j - 1]);
                    }
                }
            }
        }
    }
}

/// Joining a piece before others puts one separator between them.
pub proof fn lemma_join_cons(a: Seq<char>, rest: Seq<Seq<char>>, sep: Seq<char>)
    ensures
        join(seq![a] + rest, sep) == if rest.len() == 0 {
            a
        } else {
            a + sep + join(rest, sep)
        },
    decreases rest.len(),
{
    let p = seq![a] + rest;
    if rest.len() == 1 {
        assert(p.drop_last() =~= seq![a]);
        assert(join(seq![a], sep) == a);
        assert(p.last() == rest[0]);
        assert(join(rest, sep) == rest[0]);
        assert(join(p, sep) == join(p.drop_last(), sep) + sep + p.last());
    } else if rest.len() >= 2 {
        lemma_join_cons(a, rest.drop_last(), sep);
        assert(p.drop_last() =~= seq![a] + rest.drop_last());
        assert(p.last() == rest.last());
        assert(join(p, sep) == join(p.drop_last(), sep) + sep + p.last());
        assert(join(rest, sep) == join(rest.drop_last(), sep) + sep + rest.last());
        assert(join(p, sep) =~= a + sep + join(rest, sep));
    } else {
        assert(p =~= seq![a]);
        assert(join(p, sep) == p[0]);
    }
}

/// In well-spaced text, the words from a word start re-joined with single
/// spaces give back the rest of the text.
proof fn lemma_rejoin_from(r: Seq<char>, i: int)
    requires
        well_spaced(r),
        0 <= i <= r.len(),
        i < r.len() ==> !is_ws(r[i]),
    ensures
        join(words_from(r, i), seq![' ']) == r.subrange(i, r.len() as int),
    decreases r.len() - i,
{
    if i == r.len() {
        assert(r.subrange(i, r.len() as int) =~= Seq::<char>::empty());
    } else {
        let e = word_end(r, i);
        lemma_word_end_bounds(r, i);
        let piece = r.subrange(i, e);
        assert(words_from(r, i) == seq![piece] + words_from(r, e));
        if e == r.len() {
            assert(words_from(r, e) =~= Seq::<Seq<char>>::empty());
            lemma_join_cons(piece, words_from(r, e), seq![' ']);
        } else {
            assert(is_ws(r[e]));
            assert(r[e] == ' ' && e < r.len() - 1 && !is_ws(r[e + 1]));
            assert(words_from(r, e) == words_from(r, e + 1));
            lemma_rejoin_from(r, e + 1);
            let e2 = word_end(r, e + 1);
            lemma_word_end_bounds(r, e + 1);
            assert(words_from(r, e + 1).len() > 0);
            lemma_join_cons(piece, words_from(r, e), seq![' ']);
            assert(r.subrange(i, r.len() as int) =~= piece + seq![' '] + r.subrange(
                e + 1,
                r.len() as int,
            ));
        }
    }
}

/// Collapsing whitespace gives well-spaced text, and leaves well-spaced text
/// as it is.
pub proof fn lemma_collapse_ws(s: Seq<char>)
    ensures
        well_spaced(collapse_ws(s)),
        without_brackets(s) ==> without_brackets(collapse_ws(s)),
        well_spaced(s) ==> collapse_ws(s) == s,
{
    lemma_words_solid(s, 0);
    lemma_join_solid(words(s));
    if well_spaced(s) {
        if s.len() > 0 {
            assert(!is_ws(s[0]));
        }
        lemma_rejoin_from(s, 0);
        assert(s.subrange(0, s.len() as int) =~= s);
    }
}

} // verus!
