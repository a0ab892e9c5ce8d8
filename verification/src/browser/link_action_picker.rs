//! Picker-local selection over engine-validated transfer consequences.
use vstd::prelude::*;
use crate::explorer::field_candidate::{
    ConsequenceView, FieldCandidateAction, FieldCandidateActions, FieldCandidateConsequence,
    consequences_view,
};

verus! {

pub struct LinkActionPicker {
    actions: FieldCandidateActions,
    selected: usize,
}

/// The selection after moving one row down among `count` rows.
pub open spec fn next_selection(selected: nat, count: nat) -> nat {
    if count == 0 {
        selected
    } else if selected + 1 < count {
        selected + 1
    } else {
        (count - 1) as nat
    }
}

/// The selection after moving one row up.
pub open spec fn previous_selection(selected: nat) -> nat {
    if selected == 0 {
        0
    } else {
        (selected - 1) as nat
    }
}

impl LinkActionPicker {
    pub closed spec fn choices(&self) -> Seq<ConsequenceView> {
        self.actions.consequences_spec()
    }

    pub closed spec fn selection(&self) -> nat {
        self.selected as nat
    }

    pub fn new(actions: FieldCandidateActions) -> (picker: LinkActionPicker)
        ensures
            picker.choices() == actions.consequences_spec(),
            picker.selection() == 0,
    {
        LinkActionPicker { actions, selected: 0 }
    }

    pub fn consequences(&self) -> (consequences: &[FieldCandidateConsequence])
        ensures
            consequences_view(consequences@) == self.choices(),
    {
        self.actions.consequences()
    }

    pub fn selected_index(&self) -> (index: usize)
        ensures
            index == self.selection(),
    {
        self.selected
    }

    pub fn selected(&self) -> (selected: Option<&FieldCandidateConsequence>)
        ensures
            self.selection() < self.choices().len() ==> (selected matches Some(c) && c@
                == self.choices()[self.selection() as int]),
            self.selection() >= self.choices().len() ==> selected is None,
    {
        let consequences = self.actions.consequences();
        if self.selected < consequences.len() {
            Some(&consequences[self.selected])
        } else {
            None
        }
    }

    pub fn selected_action(&self) -> (action: Option<FieldCandidateAction>)
        ensures
            self.selection() < self.choices().len() ==> action == Some(
                self.choices()[self.selection() as int].action,
            ),
            self.selection() >= self.choices().len() ==> action is None,
    {
        match self.selected() {
            Some(consequence) => Some(consequence.action()),
            None => None,
        }
    }

    pub fn move_next(&mut self)
        ensures
            final(self).choices() == old(self).choices(),
            final(self).selection() == next_selection(
                old(self).selection(),
                old(self).choices().len(),
            ),
    {
        let count = self.actions.consequences().len();
        if count > 0 {
            self.selected = if self.selected < count - 1 {
                self.selected + 1
            } else {
                count - 1
            };
        }
    }

    pub fn move_previous(&mut self)
        ensures
            final(self).choices() == old(self).choices(),
            final(self).selection() == previous_selection(old(self).selection()),
    {
        if self.selected > 0 {
            self.selected = self.selected - 1;
        }
    }
}

/// Law: starting from the first row, any sequence of moves keeps the
/// selection on a row of a non-empty picker.
pub proof fn law_moves_keep_selection_on_a_row(selected: nat, count: nat)
    requires
        selected < count,
    ensures
        next_selection(selected, count) < count,
        previous_selection(selected) < count,
{
}

} // verus!
