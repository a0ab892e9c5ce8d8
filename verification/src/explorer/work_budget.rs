use vstd::prelude::*;

verus! {

/// A cooperative work allowance: each unit of reflected or scanned work
/// consumes one unit, and work stops once the limit is spent.
#[derive(Clone, Copy, Debug, PartialEq, Eq, Structural)]
pub struct WorkBudget {
    pub limit: usize,
    pub spent: usize,
}

impl WorkBudget {
    pub open spec fn wf(self) -> bool {
        self.spent <= self.limit
    }

    pub open spec fn remaining(self) -> int {
        self.limit - self.spent
    }

    pub fn new(limit: usize) -> (budget: WorkBudget)
        ensures
            budget.limit == limit,
            budget.spent == 0,
            budget.wf(),
    {
        WorkBudget { limit, spent: 0 }
    }

    pub fn limit(self) -> (limit: usize)
        ensures
            limit == self.limit,
    {
        self.limit
    }

    pub fn spent(self) -> (spent: usize)
        ensures
            spent == self.spent,
    {
        self.spent
    }

    /// Consumes one unit of work when any is left.
    pub fn try_consume(&mut self) -> (consumed: bool)
        requires
            old(self).wf(),
        ensures
            final(self).wf(),
            final(self).limit == old(self).limit,
            consumed == (old(self).spent < old(self).limit),
            consumed ==> final(self).spent == old(self).spent + 1,
            !consumed ==> final(self).spent == old(self).spent,
    {
        if self.spent < self.limit {
            self.spent = self.spent + 1;
            true
        } else {
            false
        }
    }
}

} // verus!
