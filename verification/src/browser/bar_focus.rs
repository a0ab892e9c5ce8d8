//! Keyboard focus within the breadcrumb bar: one position per existing
//! breadcrumb operation, followed by the "add breadcrumb" position.
use vstd::prelude::*;

verus! {

#[derive(Clone, Copy, Debug, PartialEq, Eq, Structural)]
pub struct BreadcrumbBarFocus {
    pub position: usize,
}

impl BreadcrumbBarFocus {
    /// Focus on the add position of a bar with `breadcrumb_count` operations.
    pub fn add(breadcrumb_count: usize) -> (focus: BreadcrumbBarFocus)
        ensures
            focus.position == breadcrumb_count,
    {
        BreadcrumbBarFocus { position: breadcrumb_count }
    }

    /// Focus on the first position.
    pub fn first() -> (focus: BreadcrumbBarFocus)
        ensures
            focus.position == 0,
    {
        BreadcrumbBarFocus { position: 0 }
    }

    pub fn position(self) -> (position: usize)
        ensures
            position == self.position,
    {
        self.position
    }

    /// The focused operation, or `None` on the add position.
    pub fn operation(self, breadcrumb_count: usize) -> (operation: Option<usize>)
        ensures
            self.position < breadcrumb_count ==> operation == Some(self.position),
            self.position >= breadcrumb_count ==> operation is None,
    {
        if self.position < breadcrumb_count {
            Some(self.position)
        } else {
            None
        }
    }

    pub fn is_add(self, breadcrumb_count: usize) -> (add: bool)
        ensures
            add == (self.position >= breadcrumb_count),
    {
        self.position >= breadcrumb_count
    }

    /// One position to the left, stopping at the first.
    pub fn move_previous(&mut self)
        ensures
            final(self).position == focus_after_previous(old(self).position as nat),
    {
        if self.position > 0 {
            self.position = self.position - 1;
        }
    }

    /// One position to the right, stopping at the add position.
    pub fn move_next(&mut self, breadcrumb_count: usize)
        ensures
            final(self).position == focus_after_next(
                old(self).position as nat,
                breadcrumb_count as nat,
            ),
    {
        let next = if self.position == usize::MAX {
            usize::MAX
        } else {
            self.position + 1
        };
        self.position = if next < breadcrumb_count {
            next
        } else {
            breadcrumb_count
        };
    }
}

pub open spec fn focus_after_next(position: nat, breadcrumb_count: nat) -> nat {
    if position >= breadcrumb_count {
        breadcrumb_count
    } else {
        position + 1
    }
}

pub open spec fn focus_after_previous(position: nat) -> nat {
    if position == 0 {
        0
    } else {
        (position - 1) as nat
    }
}

/// Law: focus moves stay on the bar (operations plus the add position):
/// moving right stops at the add position, moving left stops at the first
/// operation, and left-then-right returns to any position but the first.
pub proof fn law_focus_moves_stay_on_the_bar(position: nat, breadcrumb_count: nat)
    requires
        position <= breadcrumb_count,
    ensures
        focus_after_next(position, breadcrumb_count) <= breadcrumb_count,
        position < breadcrumb_count ==> focus_after_next(position, breadcrumb_count) == position + 1,
        focus_after_previous(position) <= position,
        position > 0 ==> focus_after_next(focus_after_previous(position), breadcrumb_count)
            == position,
{
}

} // verus!
