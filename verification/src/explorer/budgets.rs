//! Independent bounds for one engine-to-writer transfer and one UI frame.
use vstd::prelude::*;
use crate::explorer::work_budget::WorkBudget;

verus! {

/// Bounds for one JSON export batch: `work` limits reflected cursor
/// advancement, `max_bytes` limits the serialized fragment retained and sent.
#[derive(Clone, Copy, Debug, PartialEq, Eq, Structural)]
pub struct JsonBatchBudget {
    work: WorkBudget,
    max_bytes: usize,
}

impl JsonBatchBudget {
    pub closed spec fn work_limit(self) -> usize {
        self.work.limit
    }

    pub closed spec fn byte_limit(self) -> usize {
        self.max_bytes
    }

    pub fn new(max_work: usize, max_bytes: usize) -> (budget: JsonBatchBudget)
        ensures
            budget.work_limit() == max_work,
            budget.byte_limit() == max_bytes,
    {
        JsonBatchBudget { work: WorkBudget::new(max_work), max_bytes }
    }

    pub fn max_work(self) -> (max_work: usize)
        ensures
            max_work == self.work_limit(),
    {
        self.work.limit()
    }

    pub fn max_bytes(self) -> (max_bytes: usize)
        ensures
            max_bytes == self.byte_limit(),
    {
        self.max_bytes
    }
}

/// Cooperative and presentation bounds for one card window frame.
#[derive(Clone, Copy, Debug, PartialEq, Eq, Structural)]
pub struct CardWindowBudget {
    max_work: usize,
    max_cards: usize,
    max_relationship_rows: usize,
}

impl CardWindowBudget {
    pub closed spec fn work_limit(self) -> usize {
        self.max_work
    }

    pub closed spec fn card_limit(self) -> usize {
        self.max_cards
    }

    pub closed spec fn relationship_row_limit(self) -> usize {
        self.max_relationship_rows
    }

    /// `max_cards` is positive: a frame always has room for one card.
    pub fn new(max_work: usize, max_cards: usize, max_relationship_rows: usize) -> (budget:
        CardWindowBudget)
        requires
            max_cards > 0,
        ensures
            budget.work_limit() == max_work,
            budget.card_limit() == max_cards,
            budget.relationship_row_limit() == max_relationship_rows,
    {
        CardWindowBudget { max_work, max_cards, max_relationship_rows }
    }

    pub fn max_work(self) -> (max_work: usize)
        ensures
            max_work == self.work_limit(),
    {
        self.max_work
    }

    pub fn max_cards(self) -> (max_cards: usize)
        ensures
            max_cards == self.card_limit(),
    {
        self.max_cards
    }

    pub fn max_relationship_rows(self) -> (max_relationship_rows: usize)
        ensures
            max_relationship_rows == self.relationship_row_limit(),
    {
        self.max_relationship_rows
    }
}

} // verus!
