//! The index of already-stored events that new events are checked against.
pub mod decision_flow;
pub mod load;

use crate::dedup::decision::DecisionView;
use crate::event::RawIntelEvent;
use crate::normalization::popcount;
use vstd::hash_map::StringHashMap;
use vstd::hash_set::StringHashSet;
use vstd::prelude::*;

verus! {

/// Largest Hamming distance between SimHashes that counts as a near duplicate.
pub const NEAR_DUPLICATE_HAMMING_THRESHOLD: u32 = 4;

/// A stored event, as the exact-source index remembers it.
#[derive(Debug, Clone)]
pub struct KnownEvent {
    pub event_id: String,
    pub normalized_content_hash: String,
}

/// A stored event's SimHash.
#[derive(Debug, Clone)]
pub struct KnownSimhash {
    pub event_id: String,
    pub simhash64: u64,
}

pub struct DedupStore {
    legacy_keys: StringHashSet,
    exact_source_keys: StringHashMap<KnownEvent>,
    canonical_url_hashes: StringHashMap<String>,
    normalized_content_hashes: StringHashMap<String>,
    simhashes: Vec<KnownSimhash>,
    loaded_v2_prefixes: StringHashSet,
}

/// The contents of a dedup index.
pub struct DedupView {
    /// Dedup keys of stored events.
    pub legacy_keys: Set<Seq<char>>,
    /// Exact source key to (event id, normalized content hash).
    pub exact_source_keys: Map<Seq<char>, (Seq<char>, Seq<char>)>,
    /// Canonical URL hash to event id.
    pub canonical_url_hashes: Map<Seq<char>, Seq<char>>,
    /// Normalized content hash to event id.
    pub normalized_content_hashes: Map<Seq<char>, Seq<char>>,
    /// (event id, SimHash) of stored events, in the order they were added.
    pub simhashes: Seq<(Seq<char>, u64)>,
    /// Index shards already read.
    pub loaded_v2_prefixes: Set<Seq<char>>,
}

pub open spec fn empty_view() -> DedupView {
    DedupView {
        legacy_keys: Set::empty(),
        exact_source_keys: Map::empty(),
        canonical_url_hashes: Map::empty(),
        normalized_content_hashes: Map::empty(),
        simhashes: Seq::empty(),
        loaded_v2_prefixes: Set::empty(),
    }
}

pub open spec fn value_views(m: Map<Seq<char>, String>) -> Map<Seq<char>, Seq<char>> {
    m.map_values(|v: String| v@)
}

impl View for DedupStore {
    type V = DedupView;

    closed spec fn view(&self) -> DedupView {
        DedupView {
            legacy_keys: self.legacy_keys@,
            exact_source_keys: self.exact_source_keys@.map_values(
                |k: KnownEvent| (k.event_id@, k.normalized_content_hash@),
            ),
            canonical_url_hashes: value_views(self.canonical_url_hashes@),
            normalized_content_hashes: value_views(self.normalized_content_hashes@),
            simhashes: self.simhashes@.map_values(|k: KnownSimhash| (k.event_id@, k.simhash64)),
            loaded_v2_prefixes: self.loaded_v2_prefixes@,
        }
    }
}

/// Index of the first stored SimHash at or after `i` that is non-zero and within
/// the near-duplicate distance of `s`.
pub open spec fn first_near(sims: Seq<(Seq<char>, u64)>, s: u64, i: int) -> Option<int>
    decreases sims.len() - i,
{
    if i < 0 || i >= sims.len() {
        None
    } else if sims[i].1 != 0 && popcount((sims[i].1 ^ s) as nat)
        <= NEAR_DUPLICATE_HAMMING_THRESHOLD {
        Some(i)
    } else {
        first_near(sims, s, i + 1)
    }
}

/// A stored SimHash that is non-zero and differs from `s` in at most four bits.
pub open spec fn close_simhash(stored: u64, s: u64) -> bool {
    stored != 0 && popcount((stored ^ s) as nat) <= 4
}

/// Law: the search for a near SimHash finds a stored SimHash close to `s`
/// whenever one exists from `i` on, stopping at or before it.
pub proof fn lemma_first_near_finds_close(sims: Seq<(Seq<char>, u64)>, s: u64, i: int, k: int)
    requires
        0 <= i <= k < sims.len(),
        close_simhash(sims[k].1, s),
    ensures
        first_near(sims, s, i) matches Some(j) && i <= j <= k && close_simhash(sims[j].1, s),
    decreases k - i,
{
    if !close_simhash(sims[i].1, s) {
        lemma_first_near_finds_close(sims, s, i + 1, k);
    }
}

/// Law: what the search finds is the earliest stored SimHash from `i` on that
/// is close to `s`.
pub proof fn lemma_first_near_is_earliest(sims: Seq<(Seq<char>, u64)>, s: u64, i: int)
    requires
        0 <= i,
    ensures
        first_near(sims, s, i) matches Some(j) ==> {
            &&& i <= j < sims.len()
            &&& close_simhash(sims[j].1, s)
            &&& forall|m: int| i <= m < j ==> !close_simhash(#[trigger] sims[m].1, s)
        },
    decreases sims.len() - i,
{
    if i < sims.len() && !close_simhash(sims[i].1, s) {
        lemma_first_near_is_earliest(sims, s, i + 1);
    }
}

/// Law: an event with a non-zero SimHash that none of the exact, update or
/// content rules catches is a near duplicate exactly when a stored non-zero
/// SimHash differs from it in at most four bits (and then of the earliest such
/// stored event); otherwise it is new.
pub proof fn lemma_near_duplicate_by_hamming(st: DedupView, e: RawIntelEvent)
    requires
        !st.legacy_keys.contains(e.dedup_key@),
        !st.exact_source_keys.contains_key(e.exact_source_key@),
        !st.normalized_content_hashes.contains_key(e.normalized_content_hash@),
        e.simhash_value() != 0,
    ensures
        (exists|k: int|
            0 <= k < st.simhashes.len() && close_simhash(#[trigger] st.simhashes[k].1, e.simhash_value()))
            ==> (exists|j: int|
            0 <= j < st.simhashes.len() && close_simhash(#[trigger] st.simhashes[j].1, e.simhash_value())
                && (forall|m: int| 0 <= m < j ==> !close_simhash(#[trigger] st.simhashes[m].1, e.simhash_value()))
                && decide(st, e) == DecisionView::NearDuplicate(Some(st.simhashes[j].0))),
        (forall|k: int|
            0 <= k < st.simhashes.len() ==> !close_simhash(#[trigger] st.simhashes[k].1, e.simhash_value()))
            ==> decide(st, e) == DecisionView::New,
{
    let s = e.simhash_value();
    lemma_first_near_is_earliest(st.simhashes, s, 0);
    if exists|k: int| 0 <= k < st.simhashes.len() && close_simhash(#[trigger] st.simhashes[k].1, s) {
        let k = choose|k: int|
            0 <= k < st.simhashes.len() && close_simhash(#[trigger] st.simhashes[k].1, s);
        lemma_first_near_finds_close(st.simhashes, s, 0, k);
        let j = first_near(st.simhashes, s, 0).unwrap();
        assert(close_simhash(st.simhashes[j].1, s));
    } else if first_near(st.simhashes, s, 0) is Some {
        let j = first_near(st.simhashes, s, 0).unwrap();
        assert(close_simhash(st.simhashes[j].1, s));
    }
}

/// How an event is judged against the index, in order: a known dedup key is an
/// exact duplicate; a known exact source key is an exact duplicate when the
/// content hash is the same and an update otherwise; a known content hash is a
/// content duplicate; a non-zero SimHash close to a stored one is a near
/// duplicate; anything else is new.
pub open spec fn decide(st: DedupView, e: RawIntelEvent) -> DecisionView {
    if st.legacy_keys.contains(e.dedup_key@) {
        DecisionView::ExactDuplicate(None)
    } else if st.exact_source_keys.contains_key(e.exact_source_key@) {
        let known = st.exact_source_keys[e.exact_source_key@];
        if known.1 == e.normalized_content_hash@ {
            DecisionView::ExactDuplicate(Some(known.0))
        } else {
            DecisionView::UpdateOfExisting(Some(known.0))
        }
    } else if st.normalized_content_hashes.contains_key(e.normalized_content_hash@) {
        DecisionView::ContentDuplicate(Some(st.normalized_content_hashes[e.normalized_content_hash@]))
    } else if e.simhash_value() != 0 && first_near(st.simhashes, e.simhash_value(), 0) is Some {
        DecisionView::NearDuplicate(
            Some(st.simhashes[first_near(st.simhashes, e.simhash_value(), 0).unwrap()].0),
        )
    } else {
        DecisionView::New
    }
}

/// The index with an event added under all of its keys.
pub open spec fn with_event(st: DedupView, e: RawIntelEvent) -> DedupView {
    DedupView {
        legacy_keys: st.legacy_keys.insert(e.dedup_key@),
        exact_source_keys: st.exact_source_keys.insert(
            e.exact_source_key@,
            (e.event_id@, e.normalized_content_hash@),
        ),
        canonical_url_hashes: st.canonical_url_hashes.insert(e.canonical_url_hash@, e.event_id@),
        normalized_content_hashes: st.normalized_content_hashes.insert(
            e.normalized_content_hash@,
            e.event_id@,
        ),
        simhashes: st.simhashes.push((e.event_id@, e.simhash_value())),
        loaded_v2_prefixes: st.loaded_v2_prefixes,
    }
}

/// New events and updates are added to the index; duplicates are not.
pub open spec fn after_decision(st: DedupView, e: RawIntelEvent) -> DedupView {
    if decide(st, e) is New || decide(st, e) is UpdateOfExisting {
        with_event(st, e)
    } else {
        st
    }
}

/// Law: an event that was just added to the index is an exact duplicate of it.
pub proof fn lemma_added_event_is_exact_duplicate(st: DedupView, e: RawIntelEvent)
    ensures
        decide(with_event(st, e), e) == DecisionView::ExactDuplicate(None),
        decide(with_event(st, e), e).skipped(),
{
}

/// Law: deciding an event a second time, right after the first decision, never
/// lets it through: whatever the first outcome, the second is a skipped duplicate.
pub proof fn lemma_second_decision_is_skipped(st: DedupView, e: RawIntelEvent)
    ensures
        decide(after_decision(st, e), e).skipped(),
{
    if !(decide(st, e) is New || decide(st, e) is UpdateOfExisting) {
        assert(decide(st, e).skipped());
    }
}

/// Law: an event judged a duplicate leaves the index as it was, and a new event
/// or an update is remembered under every one of its keys.
pub proof fn lemma_decision_effect(st: DedupView, e: RawIntelEvent)
    ensures
        decide(st, e).skipped() ==> after_decision(st, e) == st,
        !decide(st, e).skipped() ==> {
            let n = after_decision(st, e);
            &&& n.legacy_keys.contains(e.dedup_key@)
            &&& n.exact_source_keys.contains_key(e.exact_source_key@)
            &&& n.normalized_content_hashes.contains_key(e.normalized_content_hash@)
            &&& n.canonical_url_hashes.contains_key(e.canonical_url_hash@)
        },
{
}

impl DedupStore {
    /// An empty index.
    pub fn new() -> (s: Self)
        ensures
            s@ == empty_view(),
    {
        let s = DedupStore {
            legacy_keys: StringHashSet::new(),
            exact_source_keys: StringHashMap::new(),
            canonical_url_hashes: StringHashMap::new(),
            normalized_content_hashes: StringHashMap::new(),
            simhashes: Vec::new(),
            loaded_v2_prefixes: StringHashSet::new(),
        };
        proof {
            assert(s@.exact_source_keys =~= Map::empty());
            assert(s@.canonical_url_hashes =~= Map::empty());
            assert(s@.normalized_content_hashes =~= Map::empty());
            assert(s@.simhashes =~= Seq::empty());
        }
        s
    }

    /// Number of keys held: dedup keys, exact source keys and content hashes.
    /// The count saturates at `usize::MAX`, a total that collections held in
    /// memory cannot reach.
    pub fn len(&self) -> (n: usize)
        ensures
            n == (if self@.legacy_keys.len() + self@.exact_source_keys.len()
                + self@.normalized_content_hashes.len() <= usize::MAX {
                self@.legacy_keys.len() + self@.exact_source_keys.len()
                    + self@.normalized_content_hashes.len()
            } else {
                usize::MAX as nat
            }),
    {
        proof {
            assert(self.exact_source_keys@.map_values(
                |k: KnownEvent| (k.event_id@, k.normalized_content_hash@),
            ).dom() =~= self.exact_source_keys@.dom());
            assert(value_views(self.normalized_content_hashes@).dom()
                =~= self.normalized_content_hashes@.dom());
        }
        self.legacy_keys.len().saturating_add(self.exact_source_keys.len()).saturating_add(
            self.normalized_content_hashes.len(),
        )
    }
}

impl Default for DedupStore {
    fn default() -> (s: Self)
        ensures
            s@ == empty_view(),
    {
        DedupStore::new()
    }
}

} // verus!
