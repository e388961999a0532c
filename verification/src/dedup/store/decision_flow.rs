//! Judging one event against the index, and adding it when it is kept.
use super::{
    after_decision, decide, first_near, value_views, with_event, DedupStore, KnownEvent,
    KnownSimhash, NEAR_DUPLICATE_HAMMING_THRESHOLD,
};
use crate::dedup::decision::DedupDecision;
use crate::event::RawIntelEvent;
use crate::normalization::hamming_distance;
use crate::text::str_eq;
use vstd::prelude::*;

verus! {

impl DedupStore {
    /// Judges `event` against the index and adds it when it is new or an update.
    pub fn decide_and_insert(&mut self, event: &RawIntelEvent) -> (d: DedupDecision)
        ensures
            d@ == decide(old(self)@, *event),
            final(self)@ == after_decision(old(self)@, *event),
    {
        if self.legacy_keys.contains(event.dedup_key()) {
            return DedupDecision::ExactDuplicate { duplicate_of_event_id: None };
        }
        proof {
            assert(self@.exact_source_keys.dom() =~= self.exact_source_keys@.dom());
        }
        match self.exact_source_keys.get(event.exact_source_key()) {
            Some(known) => {
                let same = str_eq(
                    known.normalized_content_hash.as_str(),
                    event.normalized_content_hash(),
                );
                let duplicate_of_event_id = Some(known.event_id.clone());
                if same {
                    return DedupDecision::ExactDuplicate { duplicate_of_event_id };
                }
                self.insert_event(event);
                return DedupDecision::UpdateOfExisting { duplicate_of_event_id };
            },
            None => {},
        }
        proof {
            assert(self@.normalized_content_hashes.dom() =~= self.normalized_content_hashes@.dom());
        }
        match self.normalized_content_hashes.get(event.normalized_content_hash()) {
            Some(event_id) => {
                return DedupDecision::ContentDuplicate {
                    duplicate_of_event_id: Some(event_id.clone()),
                };
            },
            None => {},
        }
        match self.near_duplicate(event.simhash64_value()) {
            Some(known) => {
                return DedupDecision::NearDuplicate {
                    duplicate_of_event_id: Some(known.event_id.clone()),
                };
            },
            None => {},
        }
        self.insert_event(event);
        DedupDecision::New
    }

    /// The first stored non-zero SimHash within the near-duplicate distance of
    /// `simhash64`; none for a zero SimHash.
    fn near_duplicate(&self, simhash64: u64) -> (r: Option<&KnownSimhash>)
        ensures
            r is Some ==> simhash64 != 0 && first_near(self@.simhashes, simhash64, 0) is Some
                && self@.simhashes[first_near(self@.simhashes, simhash64, 0).unwrap()] == (
                r.unwrap().event_id@,
                r.unwrap().simhash64,
            ),
            r is None ==> simhash64 == 0 || first_near(self@.simhashes, simhash64, 0) is None,
    {
        if simhash64 == 0 {
            return None;
        }
        match self.first_near_index(simhash64) {
            Some(i) => Some(&self.simhashes[i]),
            None => None,
        }
    }

    /// Index of the first stored non-zero SimHash within the near-duplicate
    /// distance of `simhash64`.
    fn first_near_index(&self, simhash64: u64) -> (r: Option<usize>)
        ensures
            r is Some ==> first_near(self@.simhashes, simhash64, 0) == Some(r.unwrap() as int)
                && r.unwrap() < self@.simhashes.len() && r.unwrap() < self.simhashes@.len(),
            r is None ==> first_near(self@.simhashes, simhash64, 0) is None,
    {
        let mut i: usize = 0;
        while i < self.simhashes.len()
            invariant
                i <= self.simhashes@.len(),
                self@.simhashes.len() == self.simhashes@.len(),
                first_near(self@.simhashes, simhash64, i as int) == first_near(
                    self@.simhashes,
                    simhash64,
                    0,
                ),
            decreases self.simhashes.len() - i,
        {
            let known = &self.simhashes[i];
            assert(self@.simhashes[i as int] == (known.event_id@, known.simhash64));
            if known.simhash64 != 0 && hamming_distance(known.simhash64, simhash64)
                <= NEAR_DUPLICATE_HAMMING_THRESHOLD {
                return Some(i);
            }
            i = i + 1;
        }
        None
    }

    /// Adds an event under all of its keys.
    fn insert_event(&mut self, event: &RawIntelEvent)
        ensures
            final(self)@ == with_event(old(self)@, *event),
    {
        self.legacy_keys.insert(event.dedup_key().to_owned());
        self.exact_source_keys.insert(
            event.exact_source_key().to_owned(),
            KnownEvent {
                event_id: event.event_id().to_owned(),
                normalized_content_hash: event.normalized_content_hash().to_owned(),
            },
        );
        self.canonical_url_hashes.insert(
            event.canonical_url_hash().to_owned(),
            event.event_id().to_owned(),
        );
        self.normalized_content_hashes.insert(
            event.normalized_content_hash().to_owned(),
            event.event_id().to_owned(),
        );
        self.simhashes.push(
            KnownSimhash { event_id: event.event_id().to_owned(), simhash64: event.simhash64_value() },
        );
        proof {
            let n = with_event(old(self)@, *event);
            assert(self@.exact_source_keys =~= n.exact_source_keys);
            assert(self@.canonical_url_hashes =~= n.canonical_url_hashes);
            assert(self@.normalized_content_hashes =~= n.normalized_content_hashes);
            assert(self@.simhashes =~= n.simhashes);
        }
    }
}

} // verus!
