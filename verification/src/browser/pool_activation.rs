//! What pressing Enter on the object pool does: which picker or editor opens
//! for the focused row of a building root, which action a root runs, or
//! which projection tab opens. The engine calls that follow stay with the
//! caller; this module only decides.
use vstd::prelude::*;
use crate::explorer::builder::{BuilderFieldView, BuilderSnapshot};
use crate::explorer::card::{CardRowContent, CardRowKey, ContentView, RowKeyView};
use crate::explorer::card_address::{CardAddress, CardAddressView};
use crate::explorer::ids::SlotId;
use crate::explorer::value_address::{address_text, AddressView, ValueAddress};
use crate::text::{decimal, push_decimal, push_text, same_text};

verus! {

/// How the focused root action can be invoked.
#[derive(Clone, Copy, Debug, PartialEq, Eq, Structural)]
pub enum ActionInvocation {
    /// Through an arbitrary-input plan: random bytes build the request.
    Arbitrary,
    /// Directly, with the root as its input.
    Direct,
    /// The action offers no invocation.
    Unavailable,
}

/// The step that activating the selected pool card takes.
#[derive(Clone, Debug, PartialEq, Eq)]
pub enum PoolActivation {
    /// The create-object card: reserve a new building root and pick its shape.
    CreateShapeUnsetRoot,
    /// Open the shape picker for the building root.
    PickShape,
    /// Open the variant picker for the building root's enum shape.
    PickVariant,
    /// Edit the building root's scalar value as text.
    EditScalar,
    /// Open the value picker for builder field `field`, named `name`, whose
    /// shape is named `shape_name`.
    PickFieldValue { field: usize, name: String, shape_name: String },
    /// Invoke the focused root action through an arbitrary-input plan.
    InvokeArbitrary,
    /// Invoke the focused root action directly.
    Invoke,
    /// Open the focused relationship's target in a projection tab.
    OpenProjection(ValueAddress),
    /// Nothing to do.
    Ignore,
}

pub enum ActivationView {
    CreateShapeUnsetRoot,
    PickShape,
    PickVariant,
    EditScalar,
    PickFieldValue { field: usize, name: Seq<char>, shape_name: Seq<char> },
    InvokeArbitrary,
    Invoke,
    OpenProjection(AddressView),
    Ignore,
}

impl View for PoolActivation {
    type V = ActivationView;

    open spec fn view(&self) -> ActivationView {
        match self {
            PoolActivation::CreateShapeUnsetRoot => ActivationView::CreateShapeUnsetRoot,
            PoolActivation::PickShape => ActivationView::PickShape,
            PoolActivation::PickVariant => ActivationView::PickVariant,
            PoolActivation::EditScalar => ActivationView::EditScalar,
            PoolActivation::PickFieldValue { field, name, shape_name } => ActivationView::PickFieldValue {
                field: *field,
                name: name@,
                shape_name: shape_name@,
            },
            PoolActivation::InvokeArbitrary => ActivationView::InvokeArbitrary,
            PoolActivation::Invoke => ActivationView::Invoke,
            PoolActivation::OpenProjection(target) => ActivationView::OpenProjection(target@),
            PoolActivation::Ignore => ActivationView::Ignore,
        }
    }
}

/// Whether activating `selected` must first read the snapshot of its root:
/// it is a root card, and the root snapshot at hand (`active_root`) is of
/// another slot or there is none.
pub open spec fn needs_root_snapshot(selected: CardAddressView, active_root: Option<SlotId>) -> bool {
    match selected {
        CardAddressView::Value(address) => address.path.len() == 0 && match active_root {
            Some(slot) => slot.0 != address.root,
            None => true,
        },
        CardAddressView::NewSlot => false,
    }
}

pub fn should_read_root_snapshot(selected: &CardAddress, active_root: Option<SlotId>) -> (read: bool)
    ensures
        read == needs_root_snapshot(selected@, active_root),
{
    match selected {
        CardAddress::Value(address) => address.is_root() && match active_root {
            Some(slot) => slot.0 != address.root_id().0,
            None => true,
        },
        CardAddress::NewSlot => false,
    }
}

/// Whether `i` is the first builder field named `name`.
pub open spec fn is_first_field(fields: Seq<BuilderFieldView>, name: Seq<char>, i: int) -> bool {
    &&& 0 <= i < fields.len()
    &&& fields[i].name == name
    &&& forall|j: int| 0 <= j < i ==> fields[j].name != name
}

pub open spec fn has_field(fields: Seq<BuilderFieldView>, name: Seq<char>) -> bool {
    exists|i: int| 0 <= i < fields.len() && fields[i].name == name
}

/// What the focused row's content does when the builder rows did not apply.
pub open spec fn content_activation(
    content: Option<ContentView>,
    invocation: ActionInvocation,
) -> ActivationView {
    match content {
        Some(ContentView::RootAction(_)) => match invocation {
            ActionInvocation::Arbitrary => ActivationView::InvokeArbitrary,
            ActionInvocation::Direct => ActivationView::Invoke,
            ActionInvocation::Unavailable => ActivationView::Ignore,
        },
        Some(ContentView::Address(target)) => ActivationView::OpenProjection(target),
        _ => ActivationView::Ignore,
    }
}

/// The step taken when the pool card `selected` is activated with row
/// `focused` (whose content is `content`) focused. `builder` is the
/// building metadata of the root snapshot at hand; `shape_name` its shape,
/// if chosen; `fields` its fields. On a root card with such metadata the
/// shape, variant, value and field rows open their editors (a field that is
/// not among the described ones falls through); otherwise a root action is
/// invoked as `invocation` allows, and a relationship opens its target.
pub open spec fn activation(
    selected: CardAddressView,
    has_builder: bool,
    shape_name: Option<Seq<char>>,
    fields: Seq<BuilderFieldView>,
    focused: Option<RowKeyView>,
    content: Option<ContentView>,
    invocation: ActionInvocation,
) -> ActivationView {
    match selected {
        CardAddressView::NewSlot => ActivationView::CreateShapeUnsetRoot,
        CardAddressView::Value(address) => if address.path.len() == 0 && has_builder {
            match focused {
                Some(RowKeyView::Shape) => ActivationView::PickShape,
                Some(RowKeyView::Variant) => if shape_name is Some {
                    ActivationView::PickVariant
                } else {
                    ActivationView::Ignore
                },
                Some(RowKeyView::Value) => ActivationView::EditScalar,
                Some(RowKeyView::Field(name)) => if has_field(fields, name) {
                    let i = choose|i: int| is_first_field(fields, name, i);
                    ActivationView::PickFieldValue {
                        field: fields[i].index,
                        name: fields[i].name,
                        shape_name: fields[i].shape_name,
                    }
                } else {
                    content_activation(content, invocation)
                },
                _ => content_activation(content, invocation),
            }
        } else {
            content_activation(content, invocation)
        },
    }
}

fn first_field_named(fields: &[crate::explorer::builder::BuilderFieldSnapshot], name: &str) -> (found:
    Option<usize>)
    ensures
        found matches Some(i) ==> is_first_field(
            crate::explorer::builder::fields_view(fields@),
            name@,
            i as int,
        ),
        found is None ==> !has_field(crate::explorer::builder::fields_view(fields@), name@),
{
    let ghost view = crate::explorer::builder::fields_view(fields@);
    let mut i: usize = 0;
    while i < fields.len()
        invariant
            i <= fields.len(),
            view == crate::explorer::builder::fields_view(fields@),
            forall|j: int| 0 <= j < i ==> view[j].name != name@,
        decreases fields.len() - i,
    {
        if same_text(fields[i].name(), name) {
            return Some(i);
        }
        i = i + 1;
    }
    None
}

proof fn lemma_first_field_unique(fields: Seq<BuilderFieldView>, name: Seq<char>, i: int)
    requires
        is_first_field(fields, name, i),
    ensures
        (choose|k: int| is_first_field(fields, name, k)) == i,
{
    let c = choose|k: int| is_first_field(fields, name, k);
    assert(is_first_field(fields, name, c));
    if c < i {
        assert(fields[c].name != name);
    } else if i < c {
        assert(fields[i].name != name);
    }
}

fn content_step(content: Option<&CardRowContent>, invocation: ActionInvocation) -> (step: PoolActivation)
    ensures
        step@ == content_activation(
            match content {
                Some(c) => Some(c@),
                None => None,
            },
            invocation,
        ),
{
    match content {
        Some(CardRowContent::RootAction(_)) => match invocation {
            ActionInvocation::Arbitrary => PoolActivation::InvokeArbitrary,
            ActionInvocation::Direct => PoolActivation::Invoke,
            ActionInvocation::Unavailable => PoolActivation::Ignore,
        },
        Some(CardRowContent::Address(target)) => PoolActivation::OpenProjection(target.duplicate()),
        _ => PoolActivation::Ignore,
    }
}

/// The step that activating the pool card `selected` takes, given the
/// building metadata of the root snapshot at hand, the focused row's key and
/// content, and how the focused action (if any) can be invoked.
pub fn pool_activation(
    selected: &CardAddress,
    builder: Option<&BuilderSnapshot>,
    focused: Option<&CardRowKey>,
    content: Option<&CardRowContent>,
    invocation: ActionInvocation,
) -> (step: PoolActivation)
    ensures
        step@ == activation(
            selected@,
            builder is Some,
            match builder {
                Some(b) => b.shape_name_view(),
                None => None,
            },
            match builder {
                Some(b) => b.fields_spec(),
                None => Seq::empty(),
            },
            match focused {
                Some(k) => Some(k@),
                None => None,
            },
            match content {
                Some(c) => Some(c@),
                None => None,
            },
            invocation,
        ),
        selected@ is NewSlot ==> step@ == ActivationView::CreateShapeUnsetRoot,
        (selected@ matches CardAddressView::Value(a) && a.path.len() == 0) && builder is Some ==> {
            &&& focused matches Some(CardRowKey::Shape) ==> step@ == ActivationView::PickShape
            &&& focused matches Some(CardRowKey::Value) ==> step@ == ActivationView::EditScalar
        },
        selected@ is Value && builder is None ==> {
            &&& content matches Some(CardRowContent::RootAction(_)) ==> step@ == (match invocation {
                ActionInvocation::Arbitrary => ActivationView::InvokeArbitrary,
                ActionInvocation::Direct => ActivationView::Invoke,
                ActionInvocation::Unavailable => ActivationView::Ignore,
            })
            &&& content matches Some(CardRowContent::Address(target)) ==> step@
                == ActivationView::OpenProjection(target@)
            &&& content is None ==> step@ == ActivationView::Ignore
        },
{
    let address = match selected {
        CardAddress::NewSlot => return PoolActivation::CreateShapeUnsetRoot,
        CardAddress::Value(address) => address,
    };
    if address.is_root() {
        if let Some(builder) = builder {
            match focused {
                Some(CardRowKey::Shape) => return PoolActivation::PickShape,
                Some(CardRowKey::Variant) => {
                    return if builder.shape_name().is_some() {
                        PoolActivation::PickVariant
                    } else {
                        PoolActivation::Ignore
                    };
                },
                Some(CardRowKey::Value) => return PoolActivation::EditScalar,
                Some(CardRowKey::Field(name)) => {
                    let fields = builder.fields();
                    if let Some(i) = first_field_named(fields, name.as_str()) {
                        proof {
                            lemma_first_field_unique(
                                crate::explorer::builder::fields_view(fields@),
                                name@,
                                i as int,
                            );
                        }
                        return PoolActivation::PickFieldValue {
                            field: fields[i].index(),
                            name: String::from_str(fields[i].name()),
                            shape_name: String::from_str(fields[i].shape_name()),
                        };
                    }
                },
                _ => {},
            }
        }
    }
    content_step(content, invocation)
}

/// Name of the projection tab that opens a relationship's target: the
/// relationship's type label when it has one, else the target's address.
pub fn projection_tab_name(type_label: Option<&str>, target: &ValueAddress) -> (name: String)
    ensures
        name@ == match type_label {
            Some(label) => label@,
            None => address_text(target@),
        },
{
    match type_label {
        Some(label) => String::from_str(label),
        None => target.text(),
    }
}

/// Status line after a root action created its output root: the action's
/// label, the output slot, and for an arbitrary-input plan the plan and the
/// source slot it drew from.
pub open spec fn output_status_text(
    label: Seq<char>,
    output: u64,
    plan: Option<(u64, u64)>,
) -> Seq<char> {
    label + " created output slot "@ + decimal(output as nat) + match plan {
        Some((plan_id, source)) => " via arbitrary plan "@ + decimal(plan_id as nat)
            + " and source slot "@ + decimal(source as nat),
        None => Seq::empty(),
    } + " in a new tab"@
}

pub fn output_status(label: &str, output: SlotId, plan: Option<(u64, SlotId)>) -> (status: String)
    ensures
        status@ == output_status_text(
            label@,
            output.0,
            match plan {
                Some((plan_id, source)) => Some((plan_id, source.0)),
                None => None,
            },
        ),
{
    let mut status = String::from_str(label);
    push_text(&mut status, " created output slot ");
    push_decimal(&mut status, output.0);
    let ghost head = status@;
    if let Some((plan_id, source)) = plan {
        push_text(&mut status, " via arbitrary plan ");
        push_decimal(&mut status, plan_id);
        push_text(&mut status, " and source slot ");
        push_decimal(&mut status, source.0);
    }
    push_text(&mut status, " in a new tab");
    proof {
        let ghost tail: Seq<char> = match plan {
            Some((plan_id, source)) => " via arbitrary plan "@ + decimal(plan_id as nat)
                + " and source slot "@ + decimal(source.0 as nat),
            None => Seq::empty(),
        };
        assert(status@ =~= head + tail + " in a new tab"@);
    }
    status
}

/// Status line after a relationship target opened in a projection tab.
pub open spec fn projection_status_text(target: AddressView, tab: u64, source_tab: Option<u64>) -> Seq<
    char,
> {
    "Opened "@ + address_text(target) + " in projection tab slot "@ + decimal(tab as nat) + match source_tab {
        Some(source) => "; source tab slot "@ + decimal(source as nat) + " is unchanged."@,
        None => "."@,
    }
}

pub fn projection_status(target: &ValueAddress, tab: SlotId, source_tab: Option<SlotId>) -> (status:
    String)
    ensures
        status@ == projection_status_text(
            target@,
            tab.0,
            match source_tab {
                Some(s) => Some(s.0),
                None => None,
            },
        ),
{
    let mut status = String::from_str("Opened ");
    let target_text = target.text();
    push_text(&mut status, target_text.as_str());
    push_text(&mut status, " in projection tab slot ");
    push_decimal(&mut status, tab.0);
    let ghost head = status@;
    match source_tab {
        Some(source) => {
            push_text(&mut status, "; source tab slot ");
            push_decimal(&mut status, source.0);
            push_text(&mut status, " is unchanged.");
        },
        None => push_text(&mut status, "."),
    }
    status
}

} // verus!
