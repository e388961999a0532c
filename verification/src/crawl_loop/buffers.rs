//! What a crawl run gathers: events, diagnostic records and flood-control state.
use crate::balance::{SourceBalanceRecord, SourceBalanceTracker};
use crate::dedup::DedupStore;
use crate::event::RawIntelEvent;
use crate::health::{SourceHealRecord, SourceHealthRecord};
use vstd::prelude::*;

verus! {

pub struct CrawlBuffers<'a> {
    pub dedup: &'a mut DedupStore,
    pub raw_events: Vec<RawIntelEvent>,
    pub health_records: Vec<SourceHealthRecord>,
    pub heal_records: Vec<SourceHealRecord>,
    pub balance_records: Vec<SourceBalanceRecord>,
    pub balance_tracker: SourceBalanceTracker,
}

impl<'a> CrawlBuffers<'a> {
    /// Empty buffers over the run's dedup index.
    pub fn new(dedup: &'a mut DedupStore) -> (b: Self)
        ensures
            *b.dedup == *old(dedup),
            *final(b.dedup) == *final(dedup),
            b.raw_events@ == Seq::<RawIntelEvent>::empty(),
            b.health_records@ == Seq::<SourceHealthRecord>::empty(),
            b.heal_records@ == Seq::<SourceHealRecord>::empty(),
            b.balance_records@ == Seq::<SourceBalanceRecord>::empty(),
            b.balance_tracker.derivatives_emitted == 0,
            b.balance_tracker.community_emitted == 0,
            b.balance_tracker.category_emitted@ == Seq::<(Seq<char>, usize)>::empty(),
    {
        CrawlBuffers {
            dedup,
            raw_events: Vec::new(),
            health_records: Vec::new(),
            heal_records: Vec::new(),
            balance_records: Vec::new(),
            balance_tracker: SourceBalanceTracker::new(),
        }
    }
}

} // verus!
