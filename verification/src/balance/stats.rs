//! Per-source counters of one crawl run.
use crate::str_map::{lemma_sum_upsert, lookup, sum_values, upsert, StrMap};
use vstd::prelude::*;

verus! {

/// The count stored for `k`, zero when absent.
pub open spec fn count_of(es: Seq<(Seq<char>, usize)>, k: Seq<char>) -> nat {
    match lookup(es, k) {
        Some(c) => c as nat,
        None => 0,
    }
}

#[derive(Debug)]
pub struct SourceRunStats {
    pub items_seen: usize,
    pub candidates_after_dedup: usize,
    pub events_emitted: usize,
    pub duplicates_skipped: usize,
    pub suppressed_by_balance: usize,
    pub suppression_reasons: StrMap<usize>,
}

/// Law: counting a suppression under a reason keeps the suppression total equal
/// to the sum of the per-reason counts: the total and that reason's count each
/// grow by one, and the other reasons keep theirs. The total is a machine
/// counter, so it must have room for one more.
pub proof fn lemma_suppression_total_is_sum(
    reasons: Seq<(Seq<char>, usize)>,
    total: nat,
    reason: Seq<char>,
    other: Seq<char>,
)
    requires
        crate::str_map::sorted_keys(reasons),
        sum_values(reasons) == total,
        total < usize::MAX,
    ensures
        ({
            let after = upsert(reasons, reason, (count_of(reasons, reason) + 1) as usize);
            &&& sum_values(after) == total + 1
            &&& count_of(after, reason) == count_of(reasons, reason) + 1
            &&& other != reason ==> count_of(after, other) == count_of(reasons, other)
        }),
{
    crate::str_map::lemma_lookup_le_sum(reasons, reason);
    let v = (count_of(reasons, reason) + 1) as usize;
    lemma_sum_upsert(reasons, reason, v);
    crate::str_map::lemma_lookup_upsert(reasons, reason, v, reason);
    crate::str_map::lemma_lookup_upsert(reasons, reason, v, other);
}

impl SourceRunStats {
    /// The suppression total is the sum of the per-reason counts, and no reason
    /// was recorded more often than suppressions were counted.
    pub open spec fn wf(&self) -> bool {
        &&& sum_values(self.suppression_reasons@) == self.suppressed_by_balance
        &&& forall|k: Seq<char>| count_of(self.suppression_reasons@, k) <= self.suppressed_by_balance
    }

    /// All counters zero, no suppression reasons.
    pub fn new() -> (s: Self)
        ensures
            s.items_seen == 0,
            s.candidates_after_dedup == 0,
            s.events_emitted == 0,
            s.duplicates_skipped == 0,
            s.suppressed_by_balance == 0,
            s.suppression_reasons@ == Seq::<(Seq<char>, usize)>::empty(),
            s.wf(),
    {
        SourceRunStats {
            items_seen: 0,
            candidates_after_dedup: 0,
            events_emitted: 0,
            duplicates_skipped: 0,
            suppressed_by_balance: 0,
            suppression_reasons: StrMap::new(),
        }
    }

    /// Counts one event suppressed by the flood controls, under `reason`.
    pub fn record_suppression(&mut self, reason: String)
        requires
            old(self).wf(),
            old(self).suppressed_by_balance < usize::MAX,
        ensures
            final(self).wf(),
            final(self).suppressed_by_balance == old(self).suppressed_by_balance + 1,
            final(self).suppression_reasons@ == crate::str_map::upsert(
                old(self).suppression_reasons@,
                reason@,
                (count_of(old(self).suppression_reasons@, reason@) + 1) as usize,
            ),
            final(self).items_seen == old(self).items_seen,
            final(self).candidates_after_dedup == old(self).candidates_after_dedup,
            final(self).events_emitted == old(self).events_emitted,
            final(self).duplicates_skipped == old(self).duplicates_skipped,
    {
        let ghost r = reason@;
        let ghost before = self.suppression_reasons@;
        assert(count_of(before, r) <= old(self).suppressed_by_balance);
        proof {
            use_type_invariant(&self.suppression_reasons);
            lemma_sum_upsert(before, r, (count_of(before, r) + 1) as usize);
        }
        self.suppressed_by_balance = self.suppressed_by_balance + 1;
        self.suppression_reasons.increment(reason);
        proof {
            assert forall|k: Seq<char>| count_of(self.suppression_reasons@, k)
                <= self.suppressed_by_balance by {
                assert(count_of(before, k) <= old(self).suppressed_by_balance);
                crate::str_map::lemma_lookup_upsert(
                    before,
                    r,
                    (count_of(before, r) + 1) as usize,
                    k,
                );
            }
        }
    }

    /// A copy of these counters.
    pub fn duplicate(&self) -> (s: Self)
        ensures
            s.items_seen == self.items_seen,
            s.candidates_after_dedup == self.candidates_after_dedup,
            s.events_emitted == self.events_emitted,
            s.duplicates_skipped == self.duplicates_skipped,
            s.suppressed_by_balance == self.suppressed_by_balance,
            s.suppression_reasons@ == self.suppression_reasons@,
    {
        SourceRunStats {
            items_seen: self.items_seen,
            candidates_after_dedup: self.candidates_after_dedup,
            events_emitted: self.events_emitted,
            duplicates_skipped: self.duplicates_skipped,
            suppressed_by_balance: self.suppressed_by_balance,
            suppression_reasons: self.suppression_reasons.copy_counts(),
        }
    }
}

impl Default for SourceRunStats {
    fn default() -> (s: Self)
        ensures
            s.items_seen == 0,
            s.candidates_after_dedup == 0,
            s.events_emitted == 0,
            s.duplicates_skipped == 0,
            s.suppressed_by_balance == 0,
            s.suppression_reasons@ == Seq::<(Seq<char>, usize)>::empty(),
    {
        SourceRunStats::new()
    }
}

} // verus!
