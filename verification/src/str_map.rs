//! A map from strings to values whose entries stay in ascending key order, so
//! that it lists its contents the way `BTreeMap<String, _>` does.
use crate::text::{chars_of, compare_chars, str_lt, lemma_str_lt_trichotomy};
use vstd::prelude::*;

verus! {

/// Entry list after setting `k` to `v`: the entry for `k` is replaced in place,
/// or a new entry is placed before the first larger key.
pub open spec fn upsert<T>(es: Seq<(Seq<char>, T)>, k: Seq<char>, v: T) -> Seq<(Seq<char>, T)>
    decreases es.len(),
{
    if es.len() == 0 {
        seq![(k, v)]
    } else if es[0].0 == k {
        seq![(k, v)] + es.drop_first()
    } else if str_lt(k, es[0].0) {
        seq![(k, v)] + es
    } else {
        seq![es[0]] + upsert(es.drop_first(), k, v)
    }
}

/// The value stored for `k`, if any (the first entry with that key).
pub open spec fn lookup<T>(es: Seq<(Seq<char>, T)>, k: Seq<char>) -> Option<T>
    decreases es.len(),
{
    if es.len() == 0 {
        None
    } else if es[0].0 == k {
        Some(es[0].1)
    } else {
        lookup(es.drop_first(), k)
    }
}

/// Keys strictly ascending.
pub open spec fn sorted_keys<T>(es: Seq<(Seq<char>, T)>) -> bool {
    forall|i: int, j: int| 0 <= i < j < es.len() ==> str_lt(#[trigger] es[i].0, #[trigger] es[j].0)
}

pub open spec fn keys_of<T>(es: Seq<(Seq<char>, T)>) -> Seq<Seq<char>> {
    es.map_values(|e: (Seq<char>, T)| e.0)
}

pub open spec fn values_of<T>(es: Seq<(Seq<char>, T)>) -> Seq<T> {
    es.map_values(|e: (Seq<char>, T)| e.1)
}

/// Setting a key changes the value seen for that key and no other.
pub proof fn lemma_lookup_upsert<T>(es: Seq<(Seq<char>, T)>, k: Seq<char>, v: T, q: Seq<char>)
    ensures
        lookup(upsert(es, k, v), q) == (if q == k {
            Some(v)
        } else {
            lookup(es, q)
        }),
    decreases es.len(),
{
    if es.len() == 0 {
        assert(seq![(k, v)].drop_first() =~= Seq::<(Seq<char>, T)>::empty());
    } else if es[0].0 == k {
        assert((seq![(k, v)] + es.drop_first()).drop_first() =~= es.drop_first());
    } else if str_lt(k, es[0].0) {
        assert((seq![(k, v)] + es).drop_first() =~= es);
    } else {
        let rest = upsert(es.drop_first(), k, v);
        assert((seq![es[0]] + rest).drop_first() =~= rest);
        lemma_lookup_upsert(es.drop_first(), k, v, q);
    }
}

/// A sorted entry list stays sorted when a key is set.
pub proof fn lemma_upsert_sorted<T>(es: Seq<(Seq<char>, T)>, k: Seq<char>, v: T)
    requires
        sorted_keys(es),
    ensures
        sorted_keys(upsert(es, k, v)),
        forall|i: int|
            0 <= i < upsert(es, k, v).len() ==> #[trigger] upsert(es, k, v)[i].0 == k || exists|
                j: int,
            |
                0 <= j < es.len() && es[j].0 == upsert(es, k, v)[i].0,
    decreases es.len(),
{
    let r = upsert(es, k, v);
    if es.len() == 0 {
    } else if es[0].0 == k {
        assert forall|i: int, j: int| 0 <= i < j < r.len() implies str_lt(
            #[trigger] r[i].0,
            #[trigger] r[j].0,
        ) by {
            assert(r[i].0 == es[i].0);
            assert(r[j].0 == es[j].0);
        }
        assert forall|i: int| 0 <= i < r.len() implies #[trigger] r[i].0 == k || exists|j: int|
            0 <= j < es.len() && es[j].0 == r[i].0 by {
            assert(r[i].0 == es[i].0);
        }
    } else if str_lt(k, es[0].0) {
        assert forall|i: int, j: int| 0 <= i < j < r.len() implies str_lt(
            #[trigger] r[i].0,
            #[trigger] r[j].0,
        ) by {
            if i == 0 {
                if j > 1 {
                    crate::text::lemma_str_lt_transitive(k, es[0].0, es[j - 1].0);
                }
            }
        }
        assert forall|i: int| 0 <= i < r.len() implies #[trigger] r[i].0 == k || exists|j: int|
            0 <= j < es.len() && es[j].0 == r[i].0 by {
            if i > 0 {
                assert(es[i - 1].0 == r[i].0);
            }
        }
    } else {
        let tail = es.drop_first();
        assert(sorted_keys(tail)) by {
            assert forall|i: int, j: int| 0 <= i < j < tail.len() implies str_lt(
                #[trigger] tail[i].0,
                #[trigger] tail[j].0,
            ) by {
                assert(tail[i] == es[i + 1]);
                assert(tail[j] == es[j + 1]);
            }
        }
        lemma_upsert_sorted(tail, k, v);
        lemma_str_lt_trichotomy(k, es[0].0);
        let rest = upsert(tail, k, v);
        assert forall|i: int, j: int| 0 <= i < j < r.len() implies str_lt(
            #[trigger] r[i].0,
            #[trigger] r[j].0,
        ) by {
            if i == 0 {
                assert(r[j] == rest[j - 1]);
                if rest[j - 1].0 == k {
                } else {
                    let m = choose|m: int| 0 <= m < tail.len() && tail[m].0 == rest[j - 1].0;
                    assert(tail[m] == es[m + 1]);
                }
            } else {
                assert(r[i] == rest[i - 1]);
                assert(r[j] == rest[j - 1]);
            }
        }
        assert forall|i: int| 0 <= i < r.len() implies #[trigger] r[i].0 == k || exists|j: int|
            0 <= j < es.len() && es[j].0 == r[i].0 by {
            if i == 0 {
            } else {
                assert(r[i] == rest[i - 1]);
                if rest[i - 1].0 != k {
                    let m = choose|m: int| 0 <= m < tail.len() && tail[m].0 == rest[i - 1].0;
                    assert(tail[m] == es[m + 1]);
                }
            }
        }
    }
}

/// `upsert` spelled out at the index where the key belongs.
proof fn lemma_upsert_at<T>(es: Seq<(Seq<char>, T)>, k: Seq<char>, v: T, i: int)
    requires
        0 <= i <= es.len(),
        forall|j: int| 0 <= j < i ==> #[trigger] es[j].0 != k && !str_lt(k, es[j].0),
        i < es.len() ==> es[i].0 == k || str_lt(k, es[i].0),
    ensures
        i < es.len() && es[i].0 == k ==> upsert(es, k, v) == es.take(i) + seq![(k, v)] + es.skip(
            i + 1,
        ),
        !(i < es.len() && es[i].0 == k) ==> upsert(es, k, v) == es.take(i) + seq![(k, v)]
            + es.skip(i),
    decreases i,
{
    if i == 0 {
        assert(es.take(0) =~= seq![]);
        assert(es.skip(0) =~= es);
        if es.len() > 0 && es[0].0 == k {
            assert(es.skip(1) =~= es.drop_first());
            assert(upsert(es, k, v) =~= es.take(0) + seq![(k, v)] + es.skip(1));
        } else {
            assert(upsert(es, k, v) =~= es.take(0) + seq![(k, v)] + es.skip(0));
        }
    } else {
        let tail = es.drop_first();
        assert forall|j: int| 0 <= j < i - 1 implies #[trigger] tail[j].0 != k && !str_lt(
            k,
            tail[j].0,
        ) by {
            assert(tail[j] == es[j + 1]);
        }
        lemma_upsert_at(tail, k, v, i - 1);
        assert(tail.take(i - 1) =~= es.take(i).drop_first());
        assert(tail.skip(i - 1) =~= es.skip(i));
        if i < es.len() {
            assert(tail.skip(i) =~= es.skip(i + 1));
        }
        assert(es.take(i) =~= seq![es[0]] + tail.take(i - 1));
        if i < es.len() && es[i].0 == k {
            assert(upsert(es, k, v) =~= es.take(i) + seq![(k, v)] + es.skip(i + 1));
        } else {
            assert(upsert(es, k, v) =~= es.take(i) + seq![(k, v)] + es.skip(i));
        }
    }
}

/// Setting a key to a value no larger than `n` keeps every value at most `n`.
pub proof fn lemma_upsert_bounded(es: Seq<(Seq<char>, usize)>, k: Seq<char>, v: usize, n: int)
    requires
        forall|j: int| 0 <= j < es.len() ==> #[trigger] es[j].1 <= n,
        v <= n,
    ensures
        forall|j: int| 0 <= j < upsert(es, k, v).len() ==> #[trigger] upsert(es, k, v)[j].1 <= n,
    decreases es.len(),
{
    if es.len() > 0 && es[0].0 != k && !str_lt(k, es[0].0) {
        let tail = es.drop_first();
        assert forall|j: int| 0 <= j < tail.len() implies #[trigger] tail[j].1 <= n by {
            assert(tail[j] == es[j + 1]);
        }
        lemma_upsert_bounded(tail, k, v, n);
        let r = upsert(es, k, v);
        assert forall|j: int| 0 <= j < r.len() implies #[trigger] r[j].1 <= n by {
            if j > 0 {
                assert(r[j] == upsert(tail, k, v)[j - 1]);
            }
        }
    } else if es.len() > 0 {
        let r = upsert(es, k, v);
        assert forall|j: int| 0 <= j < r.len() implies #[trigger] r[j].1 <= n by {
            if j > 0 && es[0].0 == k {
                assert(r[j] == es[j]);
            } else if j > 0 {
                assert(r[j] == es[j - 1]);
            }
        }
    }
}

/// A value found in entries whose values are at most `n` is at most `n`.
pub proof fn lemma_lookup_bounded(es: Seq<(Seq<char>, usize)>, k: Seq<char>, n: int)
    requires
        forall|j: int| 0 <= j < es.len() ==> #[trigger] es[j].1 <= n,
    ensures
        lookup(es, k) matches Some(c) ==> c <= n,
    decreases es.len(),
{
    if es.len() > 0 && es[0].0 != k {
        let tail = es.drop_first();
        assert forall|j: int| 0 <= j < tail.len() implies #[trigger] tail[j].1 <= n by {
            assert(tail[j] == es[j + 1]);
        }
        lemma_lookup_bounded(tail, k, n);
    }
}

/// Mapping the values commutes with setting a key.
pub proof fn lemma_upsert_map_values<T, U>(
    es: Seq<(Seq<char>, T)>,
    k: Seq<char>,
    v: T,
    f: spec_fn(T) -> U,
)
    ensures
        upsert(es, k, v).map_values(|e: (Seq<char>, T)| (e.0, f(e.1))) == upsert(
            es.map_values(|e: (Seq<char>, T)| (e.0, f(e.1))),
            k,
            f(v),
        ),
    decreases es.len(),
{
    let g = |e: (Seq<char>, T)| (e.0, f(e.1));
    let m = es.map_values(g);
    if es.len() == 0 {
        assert(upsert(es, k, v).map_values(g) =~= upsert(m, k, f(v)));
    } else if es[0].0 == k {
        assert(m.drop_first() =~= es.drop_first().map_values(g));
        assert(upsert(es, k, v).map_values(g) =~= upsert(m, k, f(v)));
    } else if str_lt(k, es[0].0) {
        assert(upsert(es, k, v).map_values(g) =~= upsert(m, k, f(v)));
    } else {
        let tail = es.drop_first();
        lemma_upsert_map_values(tail, k, v, f);
        assert(m.drop_first() =~= tail.map_values(g));
        assert(upsert(es, k, v).map_values(g) =~= seq![g(es[0])] + upsert(tail, k, v).map_values(g));
        assert(upsert(es, k, v).map_values(g) =~= upsert(m, k, f(v)));
    }
}

/// The sum of the values.
pub open spec fn sum_values(es: Seq<(Seq<char>, usize)>) -> nat
    decreases es.len(),
{
    if es.len() == 0 {
        0
    } else {
        es[0].1 as nat + sum_values(es.drop_first())
    }
}

/// A stored value never exceeds the sum of all values.
pub proof fn lemma_lookup_le_sum(es: Seq<(Seq<char>, usize)>, k: Seq<char>)
    ensures
        match lookup(es, k) {
            Some(c) => c as nat <= sum_values(es),
            None => true,
        },
    decreases es.len(),
{
    if es.len() > 0 && es[0].0 != k {
        lemma_lookup_le_sum(es.drop_first(), k);
    }
}

/// Setting a key of a sorted list replaces its value in the sum (an absent
/// key counts as zero).
pub proof fn lemma_sum_upsert(es: Seq<(Seq<char>, usize)>, k: Seq<char>, v: usize)
    requires
        sorted_keys(es),
    ensures
        sum_values(upsert(es, k, v)) + (match lookup(es, k) {
            Some(c) => c as nat,
            None => 0,
        }) == sum_values(es) + v,
    decreases es.len(),
{
    let r = upsert(es, k, v);
    if es.len() == 0 {
        assert(r[0] == (k, v));
        assert(r.drop_first() =~= Seq::<(Seq<char>, usize)>::empty());
        assert(sum_values(r) == v + sum_values(r.drop_first()));
    } else if es[0].0 == k {
        assert(r[0] == (k, v));
        assert(r.drop_first() =~= es.drop_first());
        assert(sum_values(r) == v + sum_values(r.drop_first()));
    } else if str_lt(k, es[0].0) {
        assert(r[0] == (k, v));
        assert(r.drop_first() =~= es);
        assert(sum_values(r) == v + sum_values(r.drop_first()));
        assert forall|j: int| 0 <= j < es.len() implies str_lt(k, #[trigger] es[j].0) by {
            if j > 0 {
                crate::text::lemma_str_lt_transitive(k, es[0].0, es[j].0);
            }
        }
        lemma_lookup_all_greater(es, k);
    } else {
        let tail = es.drop_first();
        assert(sorted_keys(tail)) by {
            assert forall|i: int, j: int| 0 <= i < j < tail.len() implies str_lt(
                #[trigger] tail[i].0,
                #[trigger] tail[j].0,
            ) by {
                assert(tail[i] == es[i + 1]);
                assert(tail[j] == es[j + 1]);
            }
        }
        lemma_sum_upsert(tail, k, v);
        assert(r[0] == es[0]);
        assert(r.drop_first() =~= upsert(tail, k, v));
        assert(sum_values(r) == es[0].1 + sum_values(r.drop_first()));
    }
}

/// A string-keyed map kept in ascending key order.
#[derive(Debug)]
pub struct StrMap<T> {
    entries: Vec<(String, T)>,
}

impl<T> View for StrMap<T> {
    type V = Seq<(Seq<char>, T)>;

    closed spec fn view(&self) -> Seq<(Seq<char>, T)> {
        self.entries@.map_values(|e: (String, T)| (e.0@, e.1))
    }
}

impl<T> StrMap<T> {
    #[verifier::type_invariant]
    pub open spec fn keys_ascending(&self) -> bool {
        sorted_keys(self@)
    }

    /// An empty map.
    pub fn new() -> (m: Self)
        ensures
            m@ == Seq::<(Seq<char>, T)>::empty(),
    {
        StrMap { entries: Vec::new() }
    }

    pub fn len(&self) -> (n: usize)
        ensures
            n == self@.len(),
    {
        self.entries.len()
    }

    /// Index of the first entry whose key is `key` or sorts after it.
    fn locate(&self, key: &[char]) -> (r: (usize, bool))
        ensures
            r.0 <= self@.len(),
            forall|j: int| 0 <= j < r.0 ==> #[trigger] self@[j].0 != key@ && !str_lt(key@, self@[j].0),
            r.0 < self@.len() ==> self@[r.0 as int].0 == key@ || str_lt(key@, self@[r.0 as int].0),
            r.1 == (r.0 < self@.len() && self@[r.0 as int].0 == key@),
    {
        let mut i: usize = 0;
        while i < self.entries.len()
            invariant
                i <= self@.len(),
                self@.len() == self.entries@.len(),
                forall|j: int| 0 <= j < i ==> #[trigger] self@[j].0 != key@ && !str_lt(key@, self@[j].0),
            decreases self.entries.len() - i,
        {
            let k = chars_of(self.entries[i].0.as_str());
            let c = compare_chars(key, k.as_slice());
            assert(self@[i as int].0 == k@);
            if c == 0 {
                return (i, true);
            }
            if c < 0 {
                return (i, false);
            }
            i = i + 1;
        }
        (i, false)
    }

    /// Sets `key` to `value`.
    pub fn insert(&mut self, key: String, value: T)
        ensures
            final(self)@ == upsert(old(self)@, key@, value),
            sorted_keys(final(self)@),
    {
        proof {
            use_type_invariant(&*self);
            lemma_upsert_sorted(old(self)@, key@, value);
        }
        let kc = chars_of(key.as_str());
        let (i, found) = self.locate(kc.as_slice());
        proof {
            lemma_upsert_at(old(self)@, key@, value, i as int);
        }
        let ghost k = key@;
        let mut es: Vec<(String, T)> = Vec::new();
        std::mem::swap(&mut es, &mut self.entries);
        if found {
            es.remove(i);
        }
        es.insert(i, (key, value));
        let ghost new_view = es@.map_values(|e: (String, T)| (e.0@, e.1));
        if found {
            assert(new_view =~= old(self)@.take(i as int) + seq![(k, value)] + old(self)@.skip(i + 1));
        } else {
            assert(new_view =~= old(self)@.take(i as int) + seq![(k, value)] + old(self)@.skip(
                i as int,
            ));
        }
        self.entries = es;
    }

    /// The value stored for `key`.
    pub fn get(&self, key: &str) -> (r: Option<&T>)
        ensures
            r is Some ==> lookup(self@, key@) == Some(*r.unwrap()),
            r is None ==> lookup(self@, key@) is None,
    {
        proof {
            use_type_invariant(self);
        }
        let kc = chars_of(key);
        let (i, found) = self.locate(kc.as_slice());
        proof {
            lemma_lookup_prefix(self@, key@, i as int);
        }
        if found {
            let r = &self.entries[i].1;
            assert(*r == self@[i as int].1);
            assert(self@.skip(i as int)[0] == self@[i as int]);
            assert(lookup(self@.skip(i as int), key@) == Some(self@[i as int].1));
            assert(lookup(self@, key@) == Some(*r));
            Some(r)
        } else {
            proof {
                let es = self@;
                assert forall|j: int| 0 <= j < es.skip(i as int).len() implies str_lt(
                    key@,
                    #[trigger] es.skip(i as int)[j].0,
                ) by {
                    assert(es.skip(i as int)[j] == es[i + j]);
                    if j > 0 {
                        crate::text::lemma_str_lt_transitive(key@, es[i as int].0, es[i + j].0);
                    }
                }
                lemma_lookup_all_greater(es.skip(i as int), key@);
            }
            None
        }
    }

    /// The keys, in ascending order.
    pub fn keys(&self) -> (ks: Vec<String>)
        ensures
            ks@.map_values(|s: String| s@) == keys_of(self@),
            forall|i: int, j: int| 0 <= i < j < ks@.len() ==> str_lt(#[trigger] ks@[i]@, #[trigger] ks@[j]@),
    {
        proof {
            use_type_invariant(self);
        }
        let mut ks: Vec<String> = Vec::new();
        let mut i: usize = 0;
        while i < self.entries.len()
            invariant
                i <= self.entries@.len(),
                self@.len() == self.entries@.len(),
                ks@.len() == i,
                forall|j: int| 0 <= j < i ==> #[trigger] ks@[j]@ == self@[j].0,
            decreases self.entries.len() - i,
        {
            ks.push(self.entries[i].0.clone());
            i = i + 1;
        }
        assert(ks@.map_values(|s: String| s@) =~= keys_of(self@));
        ks
    }

    /// The values in ascending key order.
    pub fn into_values(self) -> (vs: Vec<T>)
        ensures
            vs@ == values_of(self@),
    {
        let mut vs: Vec<T> = Vec::new();
        let ghost all = self.entries@;
        for e in it: self.entries.into_iter()
            invariant
                vs@ == it.seq().take(it.index()).map_values(|e: (String, T)| e.1),
        {
            vs.push(e.1);
            assert(vs@ =~= it.seq().take(it.index() + 1).map_values(|e: (String, T)| e.1));
        }
        assert(vs@ =~= values_of(self@));
        vs
    }
}

/// Looking up a key smaller than every key finds nothing.
proof fn lemma_lookup_all_greater<T>(es: Seq<(Seq<char>, T)>, k: Seq<char>)
    requires
        forall|j: int| 0 <= j < es.len() ==> str_lt(k, #[trigger] es[j].0),
    ensures
        lookup(es, k) is None,
    decreases es.len(),
{
    if es.len() > 0 {
        crate::text::lemma_str_lt_irreflexive(k);
        let tail = es.drop_first();
        assert forall|j: int| 0 <= j < tail.len() implies str_lt(k, #[trigger] tail[j].0) by {
            assert(tail[j] == es[j + 1]);
        }
        lemma_lookup_all_greater(tail, k);
    }
}

/// Looking a key up in a list whose first `i` keys differ from it skips them.
proof fn lemma_lookup_prefix<T>(es: Seq<(Seq<char>, T)>, k: Seq<char>, i: int)
    requires
        0 <= i <= es.len(),
        forall|j: int| 0 <= j < i ==> #[trigger] es[j].0 != k,
    ensures
        lookup(es, k) == lookup(es.skip(i), k),
    decreases i,
{
    if i == 0 {
        assert(es.skip(0) =~= es);
    } else {
        let tail = es.drop_first();
        assert forall|j: int| 0 <= j < i - 1 implies #[trigger] tail[j].0 != k by {
            assert(tail[j] == es[j + 1]);
        }
        lemma_lookup_prefix(tail, k, i - 1);
        assert(tail.skip(i - 1) =~= es.skip(i));
    }
}

impl StrMap<usize> {
    /// A copy of this map.
    pub fn copy_counts(&self) -> (m: Self)
        ensures
            m@ == self@,
    {
        proof {
            use_type_invariant(self);
        }
        let mut es: Vec<(String, usize)> = Vec::new();
        let mut i: usize = 0;
        while i < self.entries.len()
            invariant
                i <= self.entries@.len(),
                self@.len() == self.entries@.len(),
                es@.len() == i,
                forall|j: int| 0 <= j < i ==> #[trigger] es@[j].0@ == self@[j].0 && es@[j].1 == self@[j].1,
            decreases self.entries.len() - i,
        {
            let k = self.entries[i].0.clone();
            let v = self.entries[i].1;
            es.push((k, v));
            i = i + 1;
        }
        assert(es@.map_values(|e: (String, usize)| (e.0@, e.1)) =~= self@);
        StrMap { entries: es }
    }

    /// Adds one to the count for `key` (a missing key counts as zero).
    pub fn increment(&mut self, key: String)
        requires
            lookup(old(self)@, key@) matches Some(c) ==> c < usize::MAX,
        ensures
            final(self)@ == upsert(
                old(self)@,
                key@,
                match lookup(old(self)@, key@) {
                    Some(c) => (c + 1) as usize,
                    None => 1usize,
                },
            ),
    {
        let next: usize = match self.get(key.as_str()) {
            Some(c) => *c + 1,
            None => 1,
        };
        self.insert(key, next);
    }
}

} // verus!

verus! {

/// Entries after setting each key of `ks` in turn, with a unit value.
pub open spec fn insert_keys(es: Seq<(Seq<char>, ())>, ks: Seq<Seq<char>>) -> Seq<(Seq<char>, ())>
    decreases ks.len(),
{
    if ks.len() == 0 {
        es
    } else {
        upsert(insert_keys(es, ks.drop_last()), ks.last(), ())
    }
}

pub open spec fn string_views(v: Seq<String>) -> Seq<Seq<char>> {
    v.map_values(|s: String| s@)
}

impl StrMap<()> {
    /// Adds every string of `ks` as a key.
    pub fn insert_all(&mut self, ks: &[String])
        ensures
            final(self)@ == insert_keys(old(self)@, string_views(ks@)),
    {
        let mut i: usize = 0;
        assert(string_views(ks@).take(0) =~= seq![]);
        while i < ks.len()
            invariant
                i <= ks.len(),
                self@ == insert_keys(old(self)@, string_views(ks@).take(i as int)),
            decreases ks.len() - i,
        {
            self.insert(ks[i].clone(), ());
            assert(string_views(ks@).take(i + 1).drop_last() =~= string_views(ks@).take(i as int));
            i = i + 1;
        }
        assert(string_views(ks@).take(ks.len() as int) =~= string_views(ks@));
    }
}

} // verus!
