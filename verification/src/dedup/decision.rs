//! The outcome of deduplicating one event.
use vstd::prelude::*;

verus! {

#[derive(Debug, Clone, PartialEq, Eq)]
pub enum DedupDecision {
    New,
    ExactDuplicate { duplicate_of_event_id: Option<String> },
    ContentDuplicate { duplicate_of_event_id: Option<String> },
    NearDuplicate { duplicate_of_event_id: Option<String> },
    UpdateOfExisting { duplicate_of_event_id: Option<String> },
}

/// A dedup outcome with the id it refers to, as a value.
pub enum DecisionView {
    New,
    ExactDuplicate(Option<Seq<char>>),
    ContentDuplicate(Option<Seq<char>>),
    NearDuplicate(Option<Seq<char>>),
    UpdateOfExisting(Option<Seq<char>>),
}

pub open spec fn opt_view(o: Option<String>) -> Option<Seq<char>> {
    match o {
        Some(s) => Some(s@),
        None => None,
    }
}

impl View for DedupDecision {
    type V = DecisionView;

    open spec fn view(&self) -> DecisionView {
        match self {
            DedupDecision::New => DecisionView::New,
            DedupDecision::ExactDuplicate { duplicate_of_event_id } => DecisionView::ExactDuplicate(
                opt_view(*duplicate_of_event_id),
            ),
            DedupDecision::ContentDuplicate { duplicate_of_event_id } => DecisionView::ContentDuplicate(
                opt_view(*duplicate_of_event_id),
            ),
            DedupDecision::NearDuplicate { duplicate_of_event_id } => DecisionView::NearDuplicate(
                opt_view(*duplicate_of_event_id),
            ),
            DedupDecision::UpdateOfExisting { duplicate_of_event_id } => DecisionView::UpdateOfExisting(
                opt_view(*duplicate_of_event_id),
            ),
        }
    }
}

impl DecisionView {
    /// Exact, content and near duplicates are not written again; new events and
    /// updates of an existing item are.
    pub open spec fn skipped(self) -> bool {
        self is ExactDuplicate || self is ContentDuplicate || self is NearDuplicate
    }

    pub open spec fn label(self) -> Seq<char> {
        match self {
            DecisionView::New => "new"@,
            DecisionView::ExactDuplicate(_) => "exact_duplicate"@,
            DecisionView::ContentDuplicate(_) => "content_duplicate"@,
            DecisionView::NearDuplicate(_) => "near_duplicate"@,
            DecisionView::UpdateOfExisting(_) => "update_of_existing"@,
        }
    }

    pub open spec fn duplicate_of(self) -> Option<Seq<char>> {
        match self {
            DecisionView::New => None,
            DecisionView::ExactDuplicate(id) => id,
            DecisionView::ContentDuplicate(id) => id,
            DecisionView::NearDuplicate(id) => id,
            DecisionView::UpdateOfExisting(id) => id,
        }
    }
}

impl DedupDecision {
    pub fn is_skipped_duplicate(&self) -> (r: bool)
        ensures
            r == self@.skipped(),
    {
        match self {
            DedupDecision::ExactDuplicate { .. } => true,
            DedupDecision::ContentDuplicate { .. } => true,
            DedupDecision::NearDuplicate { .. } => true,
            _ => false,
        }
    }

    pub fn label(&self) -> (r: &'static str)
        ensures
            r@ == self@.label(),
    {
        match self {
            DedupDecision::New => "new",
            DedupDecision::ExactDuplicate { .. } => "exact_duplicate",
            DedupDecision::ContentDuplicate { .. } => "content_duplicate",
            DedupDecision::NearDuplicate { .. } => "near_duplicate",
            DedupDecision::UpdateOfExisting { .. } => "update_of_existing",
        }
    }

    pub fn duplicate_of_event_id(&self) -> (r: Option<String>)
        ensures
            opt_view(r) == self@.duplicate_of(),
    {
        match self {
            DedupDecision::New => None,
            DedupDecision::ExactDuplicate { duplicate_of_event_id } => duplicate_of_event_id.clone(),
            DedupDecision::ContentDuplicate { duplicate_of_event_id } => duplicate_of_event_id.clone(),
            DedupDecision::NearDuplicate { duplicate_of_event_id } => duplicate_of_event_id.clone(),
            DedupDecision::UpdateOfExisting { duplicate_of_event_id } => duplicate_of_event_id.clone(),
        }
    }
}

} // verus!
