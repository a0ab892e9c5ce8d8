//! The transfer choices (borrow, move, clone) a picker candidate offers for
//! one builder field, with a description of each consequence.
use vstd::prelude::*;
use crate::explorer::value_address::{AddressView, ValueAddress};

verus! {

#[derive(Clone, Copy, Debug, PartialEq, Eq, Structural)]
pub enum FieldCandidateAction {
    Borrow,
    Move,
    Clone,
}

#[derive(Clone, Debug, PartialEq, Eq)]
pub struct FieldCandidateConsequence {
    action: FieldCandidateAction,
    description: String,
}

pub struct ConsequenceView {
    pub action: FieldCandidateAction,
    pub description: Seq<char>,
}

impl View for FieldCandidateConsequence {
    type V = ConsequenceView;

    closed spec fn view(&self) -> ConsequenceView {
        ConsequenceView { action: self.action, description: self.description@ }
    }
}

impl FieldCandidateConsequence {
    pub fn action(&self) -> (action: FieldCandidateAction)
        ensures
            action == self@.action,
    {
        self.action
    }

    pub fn description(&self) -> (description: &str)
        ensures
            description@ == self@.description,
    {
        self.description.as_str()
    }
}

pub open spec fn borrow_description(candidate: Seq<char>, destination: Seq<char>) -> Seq<char> {
    candidate + " will be borrowed by "@ + destination
        + ". The owning root stays in place and is protected from mutation, move, and deletion while borrowed."@
}

pub open spec fn move_description(candidate: Seq<char>, destination: Seq<char>) -> Seq<char> {
    candidate + " will move into "@ + destination + ". Its arena root becomes Consumed."@
}

pub open spec fn clone_description(candidate: Seq<char>, destination: Seq<char>) -> Seq<char> {
    candidate + " will be cloned into "@ + destination
        + ". Its owning root and containing field remain unchanged."@
}

pub open spec fn refusal_message(candidate: Seq<char>, destination: Seq<char>) -> Seq<char> {
    candidate + " cannot populate "@ + destination
}

/// The consequences offered, in the order borrow, move, clone: borrow and
/// clone when the engine accepts that binding, move only for an owned root
/// the engine accepts to move.
pub open spec fn offered(
    candidate: Seq<char>,
    destination: Seq<char>,
    source_is_root: bool,
    borrow_valid: bool,
    move_valid: bool,
    clone_valid: bool,
) -> Seq<ConsequenceView> {
    (if borrow_valid {
        seq![
            ConsequenceView {
                action: FieldCandidateAction::Borrow,
                description: borrow_description(candidate, destination),
            },
        ]
    } else {
        Seq::empty()
    }) + (if source_is_root && move_valid {
        seq![
            ConsequenceView {
                action: FieldCandidateAction::Move,
                description: move_description(candidate, destination),
            },
        ]
    } else {
        Seq::empty()
    }) + (if clone_valid {
        seq![
            ConsequenceView {
                action: FieldCandidateAction::Clone,
                description: clone_description(candidate, destination),
            },
        ]
    } else {
        Seq::empty()
    })
}

/// What a candidate is offered: moving only when it is an owned root
/// (moving consumes the whole root) and the engine accepts the move,
/// borrowing and cloning exactly when the engine accepts them; each action
/// at most once.
pub proof fn law_offered_actions_follow_the_engine(
    candidate: Seq<char>,
    destination: Seq<char>,
    source_is_root: bool,
    borrow_valid: bool,
    move_valid: bool,
    clone_valid: bool,
)
    ensures
        ({
            let choices = offered(
                candidate,
                destination,
                source_is_root,
                borrow_valid,
                move_valid,
                clone_valid,
            );
            &&& forall|i: int| 0 <= i < choices.len() && choices[i].action
                == FieldCandidateAction::Move ==> source_is_root && move_valid
            &&& forall|i: int| 0 <= i < choices.len() && choices[i].action
                == FieldCandidateAction::Borrow ==> borrow_valid
            &&& forall|i: int| 0 <= i < choices.len() && choices[i].action
                == FieldCandidateAction::Clone ==> clone_valid
            &&& (source_is_root && move_valid) ==> exists|i: int| 0 <= i < choices.len()
                && choices[i].action == FieldCandidateAction::Move
            &&& borrow_valid ==> exists|i: int| 0 <= i < choices.len() && choices[i].action
                == FieldCandidateAction::Borrow
            &&& clone_valid ==> exists|i: int| 0 <= i < choices.len() && choices[i].action
                == FieldCandidateAction::Clone
            &&& forall|i: int, j: int| 0 <= i < j < choices.len() ==> choices[i].action
                != choices[j].action
            &&& choices.len() == (if borrow_valid { 1int } else { 0 }) + (if source_is_root
                && move_valid { 1int } else { 0 }) + (if clone_valid { 1int } else { 0 })
        }),
{
    let b = if borrow_valid {
        seq![
            ConsequenceView {
                action: FieldCandidateAction::Borrow,
                description: borrow_description(candidate, destination),
            },
        ]
    } else {
        Seq::empty()
    };
    let m = if source_is_root && move_valid {
        seq![
            ConsequenceView {
                action: FieldCandidateAction::Move,
                description: move_description(candidate, destination),
            },
        ]
    } else {
        Seq::empty()
    };
    let c = if clone_valid {
        seq![
            ConsequenceView {
                action: FieldCandidateAction::Clone,
                description: clone_description(candidate, destination),
            },
        ]
    } else {
        Seq::empty()
    };
    let choices = offered(candidate, destination, source_is_root, borrow_valid, move_valid, clone_valid);
    assert(choices == b + m + c);
    assert forall|i: int| 0 <= i < choices.len() implies (choices[i].action
        == FieldCandidateAction::Borrow ==> borrow_valid) && (choices[i].action
        == FieldCandidateAction::Move ==> source_is_root && move_valid) && (choices[i].action
        == FieldCandidateAction::Clone ==> clone_valid) by {
        if i < b.len() {
            assert(choices[i] == b[i]);
        } else if i < b.len() + m.len() {
            assert(choices[i] == m[i - b.len()]);
        } else {
            assert(choices[i] == c[i - b.len() - m.len()]);
        }
    }
    if borrow_valid {
        assert(choices[0] == b[0]);
    }
    if source_is_root && move_valid {
        assert(choices[b.len() as int] == m[0]);
    }
    if clone_valid {
        assert(choices[(b.len() + m.len()) as int] == c[0]);
    }
    assert forall|i: int, j: int| 0 <= i < j < choices.len() implies choices[i].action
        != choices[j].action by {
        if i < b.len() {
            assert(choices[i] == b[i]);
        } else if i < b.len() + m.len() {
            assert(choices[i] == m[i - b.len()]);
        } else {
            assert(choices[i] == c[i - b.len() - m.len()]);
        }
        if j < b.len() {
            assert(choices[j] == b[j]);
        } else if j < b.len() + m.len() {
            assert(choices[j] == m[j - b.len()]);
        } else {
            assert(choices[j] == c[j - b.len() - m.len()]);
        }
    }
}

pub open spec fn consequences_view(consequences: Seq<FieldCandidateConsequence>) -> Seq<
    ConsequenceView,
> {
    consequences.map_values(|c: FieldCandidateConsequence| c@)
}

/// Valid transfer choices for one picker candidate. At least one choice is
/// always present.
#[derive(Clone, Debug, PartialEq, Eq)]
pub struct FieldCandidateActions {
    candidate: ValueAddress,
    consequences: Vec<FieldCandidateConsequence>,
}

fn text3(a: &str, b: &str, c: &str) -> (text: String)
    ensures
        text@ == a@ + b@ + c@,
{
    let mut text = String::from_str(a);
    text.append(b);
    text.append(c);
    text
}

impl FieldCandidateActions {
    pub closed spec fn candidate_view(&self) -> AddressView {
        self.candidate@
    }

    pub closed spec fn consequences_spec(&self) -> Seq<ConsequenceView> {
        consequences_view(self.consequences@)
    }

    /// The choices for `candidate` given which bindings the engine accepts
    /// for the destination field. `candidate_label` and `destination_label`
    /// name the two sides in the descriptions. Refused when no binding is
    /// accepted.
    pub fn decide(
        candidate: ValueAddress,
        candidate_label: &str,
        destination_label: &str,
        borrow_valid: bool,
        move_valid: bool,
        clone_valid: bool,
    ) -> (result: Result<FieldCandidateActions, String>)
        ensures
            ({
                let choices = offered(
                    candidate_label@,
                    destination_label@,
                    candidate@.path.len() == 0,
                    borrow_valid,
                    move_valid,
                    clone_valid,
                );
                &&& choices.len() == 0 ==> (result matches Err(message) && message@
                    == refusal_message(candidate_label@, destination_label@))
                &&& choices.len() > 0 ==> (result matches Ok(actions)
                    && actions.consequences_spec() == choices && actions.candidate_view()
                    == candidate@)
            }),
            result matches Ok(actions) ==> forall|i: int| 0 <= i < actions.consequences_spec().len()
                && actions.consequences_spec()[i].action == FieldCandidateAction::Move
                ==> candidate@.path.len() == 0 && move_valid,
            result matches Ok(actions) ==> forall|i: int| 0 <= i < actions.consequences_spec().len()
                && actions.consequences_spec()[i].action == FieldCandidateAction::Borrow
                ==> borrow_valid,
            result matches Ok(actions) ==> forall|i: int| 0 <= i < actions.consequences_spec().len()
                && actions.consequences_spec()[i].action == FieldCandidateAction::Clone
                ==> clone_valid,
            result is Err <==> !(borrow_valid || clone_valid || (candidate@.path.len() == 0
                && move_valid)),
    {
        proof {
            law_offered_actions_follow_the_engine(
                candidate_label@,
                destination_label@,
                candidate@.path.len() == 0,
                borrow_valid,
                move_valid,
                clone_valid,
            );
        }
        let is_root = candidate.is_root();
        let mut consequences: Vec<FieldCandidateConsequence> = Vec::new();
        let ghost first: Seq<ConsequenceView> = Seq::empty();
        if borrow_valid {
            let mut description = text3(
                candidate_label,
                " will be borrowed by ",
                destination_label,
            );
            description.append(
                ". The owning root stays in place and is protected from mutation, move, and deletion while borrowed.",
            );
            consequences.push(
                FieldCandidateConsequence { action: FieldCandidateAction::Borrow, description },
            );
        }
        let ghost after_borrow = consequences_view(consequences@);
        if is_root && move_valid {
            let mut description = text3(candidate_label, " will move into ", destination_label);
            description.append(". Its arena root becomes Consumed.");
            consequences.push(
                FieldCandidateConsequence { action: FieldCandidateAction::Move, description },
            );
        }
        let ghost after_move = consequences_view(consequences@);
        if clone_valid {
            let mut description = text3(
                candidate_label,
                " will be cloned into ",
                destination_label,
            );
            description.append(". Its owning root and containing field remain unchanged.");
            consequences.push(
                FieldCandidateConsequence { action: FieldCandidateAction::Clone, description },
            );
        }
        let ghost choices = offered(
            candidate_label@,
            destination_label@,
            candidate@.path.len() == 0,
            borrow_valid,
            move_valid,
            clone_valid,
        );
        assert(consequences_view(consequences@) =~= choices);
        if consequences.len() == 0 {
            return Err(text3(candidate_label, " cannot populate ", destination_label));
        }
        Ok(FieldCandidateActions { candidate, consequences })
    }

    pub fn candidate(&self) -> (candidate: &ValueAddress)
        ensures
            candidate@ == self.candidate_view(),
    {
        &self.candidate
    }

    pub fn consequences(&self) -> (consequences: &[FieldCandidateConsequence])
        ensures
            consequences_view(consequences@) == self.consequences_spec(),
    {
        self.consequences.as_slice()
    }
}

/// Why a field binding was refused.
#[derive(Clone, Debug, PartialEq, Eq)]
pub enum FieldBindingError {
    NestedMoveSource(ValueAddress),
}

impl FieldBindingError {
    /// Text of the error.
    pub fn message(&self) -> (message: String)
        ensures
            match self {
                FieldBindingError::NestedMoveSource(address) => message@
                    == crate::explorer::value_address::address_text(address@)
                    + " is a reflected projection; Move currently requires an owned root address"@,
            },
    {
        match self {
            FieldBindingError::NestedMoveSource(address) => {
                let mut message = address.text();
                message.append(
                    " is a reflected projection; Move currently requires an owned root address",
                );
                message
            },
        }
    }
}

} // verus!
