//! Deduplicating a source's candidate events and admitting them under the
//! flood controls.
use super::{CrawlBuffers, CrawlSummary, SourceOutcome};
use crate::args::Args;
use crate::balance::classification::{is_community, is_derivatives_snapshot};
use crate::balance::stats::count_of;
use crate::balance::tracker::suppression_reason;
use crate::balance::{Admission, SourceBalancePolicy, SourceRunStats};
use crate::dedup::store::{after_decision, decide, DedupView};
use crate::dedup::{DecisionView, DedupDecision};
use crate::event::{opt_view, RawIntelEvent};
use crate::registry::Source;
use crate::str_map::{lemma_lookup_upsert, upsert};
use vstd::prelude::*;

verus! {

/// `b` is `a` with the dedup outcome `d` recorded.
pub open spec fn relabelled(a: RawIntelEvent, b: RawIntelEvent, d: DecisionView) -> bool {
    &&& b == (RawIntelEvent {
        dedup_decision: b.dedup_decision,
        duplicate_of_event_id: b.duplicate_of_event_id,
        ..a
    })
    &&& b.dedup_decision@ == d.label()
    &&& opt_view(b.duplicate_of_event_id) == d.duplicate_of()
}

/// A dry run judges every event new and leaves the index alone; otherwise the
/// index judges the event and remembers it when it is kept.
pub open spec fn decision_of(dry_run: bool, st: DedupView, e: RawIntelEvent) -> DecisionView {
    if dry_run {
        DecisionView::New
    } else {
        decide(st, e)
    }
}

pub open spec fn index_after(dry_run: bool, st: DedupView, e: RawIntelEvent) -> DedupView {
    if dry_run {
        st
    } else {
        after_decision(st, e)
    }
}

/// The run state that a source's events pass through.
pub struct AppendView {
    pub dedup: DedupView,
    pub derivatives_emitted: usize,
    pub community_emitted: usize,
    pub category_emitted: Seq<(Seq<char>, usize)>,
    pub reasons: Seq<(Seq<char>, usize)>,
    pub duplicates: nat,
    pub candidates: nat,
    pub suppressed: nat,
    pub emitted: nat,
    pub written: nat,
    /// The index of each event kept, with its dedup outcome, in order.
    pub kept: Seq<(int, DecisionView)>,
}

/// One event (the `i`-th) of `source`: a duplicate is counted and dropped; any
/// other event is a candidate, which the flood controls suppress (counted
/// under the reason) or admit (counted, and kept).
pub open spec fn append_step(
    s: AppendView,
    e: RawIntelEvent,
    i: int,
    dry_run: bool,
    source: Source,
    policy: SourceBalancePolicy,
) -> AppendView {
    let d = decision_of(dry_run, s.dedup, e);
    let dedup = index_after(dry_run, s.dedup, e);
    if d.skipped() {
        AppendView { dedup, duplicates: s.duplicates + 1, ..s }
    } else {
        match suppression_reason(s.derivatives_emitted, s.community_emitted, &source, policy) {
            Some(reason) => AppendView {
                dedup,
                candidates: s.candidates + 1,
                suppressed: s.suppressed + 1,
                reasons: upsert(s.reasons, reason, (count_of(s.reasons, reason) + 1) as usize),
                ..s
            },
            None => AppendView {
                dedup,
                candidates: s.candidates + 1,
                derivatives_emitted: if is_derivatives_snapshot(&source) {
                    (s.derivatives_emitted + 1) as usize
                } else {
                    s.derivatives_emitted
                },
                community_emitted: if !is_derivatives_snapshot(&source) && is_community(&source) {
                    (s.community_emitted + 1) as usize
                } else {
                    s.community_emitted
                },
                category_emitted: upsert(
                    s.category_emitted,
                    source.source_category@,
                    (count_of(s.category_emitted, source.source_category@) + 1) as usize,
                ),
                emitted: s.emitted + 1,
                written: s.written + if dry_run {
                    0nat
                } else {
                    1nat
                },
                kept: s.kept.push((i, d)),
                ..s
            },
        }
    }
}

/// The state after the events, one after another.
pub open spec fn append_all(
    s: AppendView,
    events: Seq<RawIntelEvent>,
    dry_run: bool,
    source: Source,
    policy: SourceBalancePolicy,
) -> AppendView
    decreases events.len(),
{
    if events.len() == 0 {
        s
    } else {
        append_step(
            append_all(s, events.drop_last(), dry_run, source, policy),
            events.last(),
            events.len() - 1,
            dry_run,
            source,
            policy,
        )
    }
}

/// Law: a dry run leaves the dedup index as it was and judges every event
/// new, so it skips no duplicate and writes nothing.
pub proof fn lemma_dry_run_leaves_index(
    s0: AppendView,
    events: Seq<RawIntelEvent>,
    source: Source,
    policy: SourceBalancePolicy,
)
    ensures
        append_all(s0, events, true, source, policy).dedup == s0.dedup,
        append_all(s0, events, true, source, policy).duplicates == s0.duplicates,
        append_all(s0, events, true, source, policy).written == s0.written,
    decreases events.len(),
{
    if events.len() > 0 {
        lemma_dry_run_leaves_index(s0, events.drop_last(), source, policy);
    }
}

/// Law: every event of a source is accounted for exactly once, as a skipped
/// duplicate, an event suppressed by the flood controls, or an emitted event;
/// the candidates are the suppressed and the emitted ones; each emitted event
/// is kept, and counts as written unless the run is dry.
pub proof fn lemma_every_event_accounted(
    s0: AppendView,
    events: Seq<RawIntelEvent>,
    dry_run: bool,
    source: Source,
    policy: SourceBalancePolicy,
)
    requires
        s0.duplicates == 0,
        s0.candidates == 0,
        s0.suppressed == 0,
        s0.emitted == 0,
        s0.written == 0,
        s0.kept.len() == 0,
    ensures
        ({
            let s = append_all(s0, events, dry_run, source, policy);
            &&& s.duplicates + s.suppressed + s.emitted == events.len()
            &&& s.candidates == s.suppressed + s.emitted
            &&& s.kept.len() == s.emitted
            &&& s.written == if dry_run {
                0
            } else {
                s.emitted
            }
        }),
    decreases events.len(),
{
    if events.len() > 0 {
        lemma_every_event_accounted(s0, events.drop_last(), dry_run, source, policy);
    }
}

/// Law: the run-wide caps hold across a source's events: if the derivatives
/// (community) count starts within the cap in force, it ends within it.
pub proof fn lemma_caps_hold(
    s0: AppendView,
    events: Seq<RawIntelEvent>,
    dry_run: bool,
    source: Source,
    policy: SourceBalancePolicy,
)
    ensures
        s0.derivatives_emitted <= policy.derivatives_run_cap() ==> append_all(
            s0,
            events,
            dry_run,
            source,
            policy,
        ).derivatives_emitted <= policy.derivatives_run_cap(),
        s0.community_emitted <= policy.community_max_events_per_run ==> append_all(
            s0,
            events,
            dry_run,
            source,
            policy,
        ).community_emitted <= policy.community_max_events_per_run,
    decreases events.len(),
{
    if events.len() > 0 {
        lemma_caps_hold(s0, events.drop_last(), dry_run, source, policy);
    }
}

/// The index's dedup keys only grow as events go through it, and every event
/// kept in a run that writes has its dedup key in the index afterwards.
pub proof fn lemma_kept_keys_remembered(
    s0: AppendView,
    events: Seq<RawIntelEvent>,
    source: Source,
    policy: SourceBalancePolicy,
)
    requires
        s0.kept.len() == 0,
    ensures
        ({
            let s = append_all(s0, events, false, source, policy);
            &&& s0.dedup.legacy_keys.subset_of(s.dedup.legacy_keys)
            &&& forall|j: int|
                0 <= j < s.kept.len() ==> 0 <= #[trigger] s.kept[j].0 < events.len()
                    && s.dedup.legacy_keys.contains(events[s.kept[j].0].dedup_key@)
        }),
    decreases events.len(),
{
    if events.len() > 0 {
        let prev = events.drop_last();
        lemma_kept_keys_remembered(s0, prev, source, policy);
        let p = append_all(s0, prev, false, source, policy);
        let s = append_all(s0, events, false, source, policy);
        assert forall|j: int| 0 <= j < s.kept.len() implies 0 <= #[trigger] s.kept[j].0
            < events.len() && s.dedup.legacy_keys.contains(events[s.kept[j].0].dedup_key@) by {
            if j < p.kept.len() {
                assert(s.kept[j] == p.kept[j]);
                assert(events[s.kept[j].0] == prev[s.kept[j].0]);
            }
        }
    }
}

/// Law: an event written by one pass over a source is a duplicate for any
/// later index that still holds the keys that pass left (indexes only gain
/// keys), so a repeated run never writes it again.
pub proof fn lemma_written_events_stay_duplicates(
    s0: AppendView,
    events: Seq<RawIntelEvent>,
    source: Source,
    policy: SourceBalancePolicy,
    later: DedupView,
    j: int,
)
    requires
        s0.kept.len() == 0,
        append_all(s0, events, false, source, policy).dedup.legacy_keys.subset_of(
            later.legacy_keys,
        ),
        0 <= j < append_all(s0, events, false, source, policy).kept.len(),
    ensures
        ({
            let e = events[append_all(s0, events, false, source, policy).kept[j].0];
            &&& decide(later, e) == DecisionView::ExactDuplicate(None)
            &&& decide(later, e).skipped()
        }),
{
    lemma_kept_keys_remembered(s0, events, source, policy);
}

/// Judges one event: new in a dry run, else by the run's index.
pub fn dedup_decision(args: &Args, buffers: &mut CrawlBuffers<'_>, event: &RawIntelEvent) -> (d:
    DedupDecision)
    ensures
        d@ == decision_of(args.dry_run, (*old(buffers).dedup)@, *event),
        (*final(buffers).dedup)@ == index_after(args.dry_run, (*old(buffers).dedup)@, *event),
        final(buffers).raw_events == old(buffers).raw_events,
        final(buffers).health_records == old(buffers).health_records,
        final(buffers).heal_records == old(buffers).heal_records,
        final(buffers).balance_records == old(buffers).balance_records,
        final(buffers).balance_tracker == old(buffers).balance_tracker,
{
    if args.dry_run {
        DedupDecision::New
    } else {
        buffers.dedup.decide_and_insert(event)
    }
}

/// Asks the flood controls about one more event of `source`; a suppressed event
/// is counted in the summary and under its reason in the source's counters.
pub fn suppress_by_balance(
    source: &Source,
    balance_policy: SourceBalancePolicy,
    buffers: &mut CrawlBuffers<'_>,
    source_stats: &mut SourceRunStats,
    summary: &mut CrawlSummary,
) -> (r: bool)
    requires
        count_of(old(buffers).balance_tracker.category_emitted@, source.source_category@)
            < usize::MAX,
        old(source_stats).wf(),
        old(source_stats).suppressed_by_balance < usize::MAX,
        old(summary).events_suppressed_by_balance < usize::MAX,
    ensures
        ({
            let reason = suppression_reason(
                old(buffers).balance_tracker.derivatives_emitted,
                old(buffers).balance_tracker.community_emitted,
                source,
                balance_policy,
            );
            &&& r == reason is Some
            &&& match reason {
                Some(why) => {
                    &&& final(buffers).balance_tracker == old(buffers).balance_tracker
                    &&& *final(summary) == (CrawlSummary {
                        events_suppressed_by_balance: (old(summary).events_suppressed_by_balance
                            + 1) as usize,
                        ..*old(summary)
                    })
                    &&& final(source_stats).suppressed_by_balance
                        == old(source_stats).suppressed_by_balance + 1
                    &&& final(source_stats).suppression_reasons@ == upsert(
                        old(source_stats).suppression_reasons@,
                        why,
                        (count_of(old(source_stats).suppression_reasons@, why) + 1) as usize,
                    )
                },
                None => {
                    &&& old(buffers).balance_tracker.after_admit(
                        source,
                        final(buffers).balance_tracker,
                    )
                    &&& *final(summary) == *old(summary)
                    &&& final(source_stats).suppressed_by_balance
                        == old(source_stats).suppressed_by_balance
                    &&& final(source_stats).suppression_reasons@
                        == old(source_stats).suppression_reasons@
                },
            }
        }),
        final(source_stats).wf(),
        final(source_stats).items_seen == old(source_stats).items_seen,
        final(source_stats).candidates_after_dedup == old(source_stats).candidates_after_dedup,
        final(source_stats).events_emitted == old(source_stats).events_emitted,
        final(source_stats).duplicates_skipped == old(source_stats).duplicates_skipped,
        *final(buffers).dedup == *old(buffers).dedup,
        final(buffers).raw_events == old(buffers).raw_events,
        final(buffers).health_records == old(buffers).health_records,
        final(buffers).heal_records == old(buffers).heal_records,
        final(buffers).balance_records == old(buffers).balance_records,
{
    match buffers.balance_tracker.admit_event(source, balance_policy) {
        Admission::Admit => false,
        Admission::Suppress { reason } => {
            summary.events_suppressed_by_balance = summary.events_suppressed_by_balance + 1;
            source_stats.record_suppression(reason);
            true
        },
    }
}

/// The state before the events: the buffers' index and flood-control counts and
/// the source's suppression reasons, with nothing counted yet.
pub open spec fn append_start(dedup: DedupView, buffers_tracker_derivatives: usize, buffers_tracker_community: usize, category_emitted: Seq<(Seq<char>, usize)>, reasons: Seq<(Seq<char>, usize)>) -> AppendView {
    AppendView {
        dedup,
        derivatives_emitted: buffers_tracker_derivatives,
        community_emitted: buffers_tracker_community,
        category_emitted,
        reasons,
        duplicates: 0,
        candidates: 0,
        suppressed: 0,
        emitted: 0,
        written: 0,
        kept: seq![],
    }
}

/// Takes a source's candidate events in order: each is judged by the dedup
/// index (new in a dry run) and labelled with the outcome; duplicates are
/// counted and dropped; the others are candidates, which the flood controls
/// admit (the event is kept in the buffers) or suppress.
pub fn append_source_events(
    args: &Args,
    balance_policy: SourceBalancePolicy,
    source: &Source,
    events: Vec<RawIntelEvent>,
    source_stats: &mut SourceRunStats,
    buffers: &mut CrawlBuffers<'_>,
    summary: &mut CrawlSummary,
) -> (outcome: SourceOutcome)
    requires
        old(source_stats).wf(),
        old(source_stats).suppressed_by_balance + events.len() <= usize::MAX,
        old(source_stats).duplicates_skipped + events.len() <= usize::MAX,
        old(source_stats).candidates_after_dedup + events.len() <= usize::MAX,
        old(source_stats).events_emitted + events.len() <= usize::MAX,
        old(summary).events_skipped_duplicate + events.len() <= usize::MAX,
        old(summary).events_suppressed_by_balance + events.len() <= usize::MAX,
        count_of(old(buffers).balance_tracker.category_emitted@, source.source_category@)
            + events.len() <= usize::MAX,
    ensures
        ({
            let s = append_all(
                append_start(
                    (*old(buffers).dedup)@,
                    old(buffers).balance_tracker.derivatives_emitted,
                    old(buffers).balance_tracker.community_emitted,
                    old(buffers).balance_tracker.category_emitted@,
                    old(source_stats).suppression_reasons@,
                ),
                events@,
                args.dry_run,
                *source,
                balance_policy,
            );
            let before = old(buffers).raw_events@;
            let after = final(buffers).raw_events@;
            &&& (*final(buffers).dedup)@ == s.dedup
            &&& final(buffers).balance_tracker.derivatives_emitted == s.derivatives_emitted
            &&& final(buffers).balance_tracker.community_emitted == s.community_emitted
            &&& final(buffers).balance_tracker.category_emitted@ == s.category_emitted
            &&& after.len() == before.len() + s.kept.len()
            &&& forall|j: int| 0 <= j < before.len() ==> after[j] == before[j]
            &&& forall|j: int|
                0 <= j < s.kept.len() ==> 0 <= #[trigger] s.kept[j].0 < events.len() && relabelled(
                    events@[s.kept[j].0],
                    after[before.len() + j],
                    s.kept[j].1,
                )
            &&& final(source_stats).suppression_reasons@ == s.reasons
            &&& final(source_stats).items_seen == old(source_stats).items_seen
            &&& final(source_stats).candidates_after_dedup == old(source_stats).candidates_after_dedup
                + s.candidates
            &&& final(source_stats).events_emitted == old(source_stats).events_emitted + s.emitted
            &&& final(source_stats).duplicates_skipped == old(source_stats).duplicates_skipped
                + s.duplicates
            &&& final(source_stats).suppressed_by_balance == old(source_stats).suppressed_by_balance
                + s.suppressed
            &&& *final(summary) == (CrawlSummary {
                events_skipped_duplicate: (old(summary).events_skipped_duplicate
                    + s.duplicates) as usize,
                events_suppressed_by_balance: (old(summary).events_suppressed_by_balance
                    + s.suppressed) as usize,
                ..*old(summary)
            })
            &&& outcome.events_written == s.written
            &&& outcome.duplicates_skipped == s.duplicates
        }),
        final(source_stats).wf(),
        final(buffers).health_records == old(buffers).health_records,
        final(buffers).heal_records == old(buffers).heal_records,
        final(buffers).balance_records == old(buffers).balance_records,
{
    let ghost s0 = append_start(
        (*buffers.dedup)@,
        buffers.balance_tracker.derivatives_emitted,
        buffers.balance_tracker.community_emitted,
        buffers.balance_tracker.category_emitted@,
        source_stats.suppression_reasons@,
    );
    let ghost all = events@;
    let ghost raw0 = buffers.raw_events@;
    let ghost stats0 = *source_stats;
    let ghost summary0 = *summary;
    let ghost count0 = count_of(buffers.balance_tracker.category_emitted@, source.source_category@);
    let ghost health0 = buffers.health_records;
    let ghost heal0 = buffers.heal_records;
    let ghost balance0 = buffers.balance_records;
    let mut outcome = SourceOutcome { events_written: 0, duplicates_skipped: 0 };
    for e in it: events.into_iter()
        invariant
            it.seq() == all,
            all.len() == events.len(),
            ({
                let s = append_all(s0, all.take(it.index() as int), args.dry_run, *source, balance_policy);
                &&& (*buffers.dedup)@ == s.dedup
                &&& buffers.balance_tracker.derivatives_emitted == s.derivatives_emitted
                &&& buffers.balance_tracker.community_emitted == s.community_emitted
                &&& buffers.balance_tracker.category_emitted@ == s.category_emitted
                &&& buffers.raw_events@.len() == raw0.len() + s.kept.len()
                &&& forall|j: int| 0 <= j < raw0.len() ==> buffers.raw_events@[j] == raw0[j]
                &&& forall|j: int|
                    0 <= j < s.kept.len() ==> 0 <= #[trigger] s.kept[j].0 < it.index() && relabelled(
                        all[s.kept[j].0],
                        buffers.raw_events@[raw0.len() + j],
                        s.kept[j].1,
                    )
                &&& source_stats.suppression_reasons@ == s.reasons
                &&& source_stats.items_seen == stats0.items_seen
                &&& source_stats.candidates_after_dedup == stats0.candidates_after_dedup + s.candidates
                &&& source_stats.events_emitted == stats0.events_emitted + s.emitted
                &&& source_stats.duplicates_skipped == stats0.duplicates_skipped + s.duplicates
                &&& source_stats.suppressed_by_balance == stats0.suppressed_by_balance + s.suppressed
                &&& *summary == (CrawlSummary {
                    events_skipped_duplicate: (summary0.events_skipped_duplicate
                        + s.duplicates) as usize,
                    events_suppressed_by_balance: (summary0.events_suppressed_by_balance
                        + s.suppressed) as usize,
                    ..summary0
                })
                &&& outcome.events_written == s.written
                &&& outcome.duplicates_skipped == s.duplicates
                &&& s.duplicates + s.candidates <= it.index()
                &&& s.suppressed + s.emitted == s.candidates
                &&& s.written <= s.emitted
                &&& count_of(s.category_emitted, source.source_category@) <= count0 + s.emitted
            }),
            source_stats.wf(),
            stats0.suppressed_by_balance + all.len() <= usize::MAX,
            stats0.duplicates_skipped + all.len() <= usize::MAX,
            stats0.candidates_after_dedup + all.len() <= usize::MAX,
            stats0.events_emitted + all.len() <= usize::MAX,
            summary0.events_skipped_duplicate + all.len() <= usize::MAX,
            summary0.events_suppressed_by_balance + all.len() <= usize::MAX,
            count0 + all.len() <= usize::MAX,
            buffers.health_records == health0,
            buffers.heal_records == heal0,
            buffers.balance_records == balance0,
    {
        let ghost i = it.index() as int;
        let ghost s = append_all(s0, all.take(i), args.dry_run, *source, balance_policy);
        proof {
            assert(all.take(i + 1).drop_last() =~= all.take(i));
            assert(all.take(i + 1).last() == e);
        }
        let mut event = e;
        let decision = dedup_decision(args, buffers, &event);
        event.set_dedup_outcome(decision.label(), decision.duplicate_of_event_id());
        if decision.is_skipped_duplicate() {
            summary.events_skipped_duplicate = summary.events_skipped_duplicate + 1;
            outcome.duplicates_skipped = outcome.duplicates_skipped + 1;
            source_stats.duplicates_skipped = source_stats.duplicates_skipped + 1;
        } else {
            source_stats.candidates_after_dedup = source_stats.candidates_after_dedup + 1;
            let suppressed = suppress_by_balance(source, balance_policy, buffers, source_stats, summary);
            if !suppressed {
                proof {
                    lemma_lookup_upsert(
                        s.category_emitted,
                        source.source_category@,
                        (count_of(s.category_emitted, source.source_category@) + 1) as usize,
                        source.source_category@,
                    );
                }
                outcome.events_written = outcome.events_written + if args.dry_run {
                    0
                } else {
                    1
                };
                source_stats.events_emitted = source_stats.events_emitted + 1;
                buffers.raw_events.push(event);
            }
        }
    }
    proof {
        assert(all.take(all.len() as int) =~= all);
    }
    outcome
}

} // verus!
