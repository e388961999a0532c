//! Tallying the publication of the run's event pointers.
use crate::crawl_loop::CrawlSummary;
use crate::event::{RawIntelEvent, RawIntelEventCreatedPointer};
use vstd::prelude::*;

verus! {

/// The pointers published and still pending, and the first publish error.
#[derive(Debug)]
pub struct PublishTally {
    pub published: Vec<RawIntelEventCreatedPointer>,
    pub pending: Vec<RawIntelEventCreatedPointer>,
    pub first_error: Option<String>,
}

impl PublishTally {
    pub fn new() -> (t: Self)
        ensures
            t.published@.len() == 0,
            t.pending@.len() == 0,
            t.first_error is None,
    {
        PublishTally { published: Vec::new(), pending: Vec::new(), first_error: None }
    }
}

/// The tally's counts and first error, as values.
pub open spec fn tally_of(t: PublishTally) -> (nat, nat, Option<Seq<char>>) {
    (t.published@.len(), t.pending@.len(), opt_text(t.first_error))
}

pub open spec fn opt_text(o: Option<String>) -> Option<Seq<char>> {
    match o {
        Some(s) => Some(s@),
        None => None,
    }
}

/// One publish result on the counts: with a publisher enabled, a success is
/// counted published and a failure pending; the first failure's error is kept.
pub open spec fn tally_step(
    t: (nat, nat, Option<Seq<char>>),
    result: Result<(), String>,
    publisher_enabled: bool,
) -> (nat, nat, Option<Seq<char>>) {
    match result {
        Ok(()) => if publisher_enabled {
            (t.0 + 1, t.1, t.2)
        } else {
            t
        },
        Err(error) => (
            t.0,
            if publisher_enabled {
                t.1 + 1
            } else {
                t.1
            },
            match t.2 {
                Some(first) => Some(first),
                None => Some(error@),
            },
        ),
    }
}

/// The counts after the results, one after another.
pub open spec fn tally_all(
    t: (nat, nat, Option<Seq<char>>),
    results: Seq<Result<(), String>>,
    publisher_enabled: bool,
) -> (nat, nat, Option<Seq<char>>)
    decreases results.len(),
{
    if results.len() == 0 {
        t
    } else {
        tally_step(tally_all(t, results.drop_last(), publisher_enabled), results.last(), publisher_enabled)
    }
}

/// The text of the first failure among the results, if any failed.
pub open spec fn first_failure(results: Seq<Result<(), String>>) -> Option<Seq<char>>
    decreases results.len(),
{
    if results.len() == 0 {
        None
    } else {
        match results[0] {
            Err(e) => Some(e@),
            Ok(()) => first_failure(results.drop_first()),
        }
    }
}

proof fn lemma_first_failure_append(results: Seq<Result<(), String>>, r: Result<(), String>)
    ensures
        first_failure(results.push(r)) == match first_failure(results) {
            Some(e) => Some(e),
            None => match r {
                Err(e) => Some(e@),
                Ok(()) => None,
            },
        },
    decreases results.len(),
{
    if results.len() > 0 {
        assert(results.push(r)[0] == results[0]);
        assert(results.push(r).drop_first() =~= results.drop_first().push(r));
        lemma_first_failure_append(results.drop_first(), r);
    } else {
        assert(results.push(r)[0] == r);
        assert(results.push(r).drop_first() =~= Seq::<Result<(), String>>::empty());
        assert(first_failure(Seq::<Result<(), String>>::empty()) is None);
    }
}

/// Law: publishing the pointers of a run accounts for each of them: with a
/// publisher enabled every pointer is either published or pending, without
/// one none is counted; the error kept is the first failure's.
pub proof fn lemma_every_pointer_tallied(results: Seq<Result<(), String>>, publisher_enabled: bool)
    ensures
        ({
            let t = tally_all((0, 0, None), results, publisher_enabled);
            &&& t.0 + t.1 == if publisher_enabled {
                results.len()
            } else {
                0
            }
            &&& t.2 == first_failure(results)
        }),
    decreases results.len(),
{
    if results.len() > 0 {
        lemma_every_pointer_tallied(results.drop_last(), publisher_enabled);
        lemma_first_failure_append(results.drop_last(), results.last());
        assert(results.drop_last().push(results.last()) =~= results);
    }
}

/// Records how publishing one pointer went. With a publisher enabled, a
/// published pointer is counted and listed as published, a failed one as
/// pending; without one nothing is counted. The first error is kept.
pub fn record_publish_result(
    tally: &mut PublishTally,
    summary: &mut CrawlSummary,
    pointer: RawIntelEventCreatedPointer,
    result: Result<(), String>,
    publisher_enabled: bool,
)
    requires
        old(summary).events_published < usize::MAX,
        old(summary).pointer_publish_pending < usize::MAX,
    ensures
        tally_of(*final(tally)) == tally_step(tally_of(*old(tally)), result, publisher_enabled),
        match result {
            Ok(()) => {
                &&& final(tally).pending == old(tally).pending
                &&& final(tally).first_error == old(tally).first_error
                &&& if publisher_enabled {
                    &&& final(tally).published@ == old(tally).published@.push(pointer)
                    &&& *final(summary) == (CrawlSummary {
                        events_published: (old(summary).events_published + 1) as usize,
                        ..*old(summary)
                    })
                } else {
                    &&& final(tally).published == old(tally).published
                    &&& *final(summary) == *old(summary)
                }
            },
            Err(error) => {
                &&& final(tally).published == old(tally).published
                &&& final(tally).first_error == (match old(tally).first_error {
                    Some(e) => Some(e),
                    None => Some(error),
                })
                &&& if publisher_enabled {
                    &&& final(tally).pending@ == old(tally).pending@.push(pointer)
                    &&& *final(summary) == (CrawlSummary {
                        pointer_publish_pending: (old(summary).pointer_publish_pending
                            + 1) as usize,
                        ..*old(summary)
                    })
                } else {
                    &&& final(tally).pending == old(tally).pending
                    &&& *final(summary) == *old(summary)
                }
            },
        },
{
    match result {
        Ok(()) => {
            if publisher_enabled {
                summary.events_published = summary.events_published + 1;
                tally.published.push(pointer);
            }
        },
        Err(error) => {
            if publisher_enabled {
                summary.pointer_publish_pending = summary.pointer_publish_pending + 1;
                tally.pending.push(pointer);
            }
            if tally.first_error.is_none() {
                tally.first_error = Some(error);
            }
        },
    }
}

/// What publishing leaves: the events to remember in the dedup index, the
/// first publish error, and the objects uploaded on the way.
#[derive(Debug)]
pub struct PublishOutcome<T> {
    pub persisted_events: Vec<RawIntelEvent>,
    pub publish_error: Option<String>,
    pub uploaded_objects: Vec<T>,
}

/// The outcome of publishing the pointers of stored events: every stored event
/// is remembered in the dedup index, whether its pointer was published or is
/// still pending; the error is the first publish failure.
pub fn publish_outcome<T>(
    stored_events: Vec<RawIntelEvent>,
    tally: &PublishTally,
    uploaded_objects: Vec<T>,
) -> (o: PublishOutcome<T>)
    ensures
        o.persisted_events@ == stored_events@,
        opt_text(o.publish_error) == opt_text(tally.first_error),
        o.uploaded_objects@ == uploaded_objects@,
{
    let publish_error = match &tally.first_error {
        Some(e) => Some(e.clone()),
        None => None,
    };
    PublishOutcome { persisted_events: stored_events, publish_error, uploaded_objects }
}

} // verus!
