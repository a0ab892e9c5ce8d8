//! What Enter does on the breadcrumb bar, and which value a new breadcrumb
//! is chosen for.
use vstd::prelude::*;
use crate::browser::bar_focus::BreadcrumbBarFocus;
use crate::browser::row_focus::{focused_index, focused_position};
use crate::explorer::breadcrumb::{
    Breadcrumb, BreadcrumbView, ProjectFieldsMode, ProjectedField, ProjectedFieldView,
    ValueFilterOperator, copy_fields, copy_strings, fields_view, strings_view,
};
use crate::explorer::card::{CardRowKey, CardSnapshot, CardView, RowKeyView, rows_view};
use crate::explorer::card_address::CardAddressView;
use crate::explorer::value_address::{AddressView, ValueAddress};

verus! {

/// The step that activating the focused breadcrumb bar position takes.
#[derive(Clone, Debug, PartialEq, Eq)]
pub enum BarActivation {
    /// The add position: open the menu of breadcrumb operations.
    OpenMenu,
    /// The focused operation no longer exists: move the focus to the add position.
    FocusAdd,
    /// Re-pick the shapes of the shape filter at `index`.
    EditShapes { index: usize, included_shapes: Vec<String> },
    /// Re-pick the fields of the projection at `index`.
    EditFields { index: usize, mode: ProjectFieldsMode, included_fields: Vec<ProjectedField> },
    /// Re-enter the value of the value filter at `index`.
    EditValue {
        index: usize,
        field_shape: String,
        field_name: String,
        operator: ValueFilterOperator,
        value: String,
    },
    /// The operation has nothing to edit (it can only be removed).
    NotEditable,
}

pub enum BarActivationView {
    OpenMenu,
    FocusAdd,
    EditShapes { index: usize, included_shapes: Seq<Seq<char>> },
    EditFields { index: usize, mode: ProjectFieldsMode, included_fields: Seq<ProjectedFieldView> },
    EditValue {
        index: usize,
        field_shape: Seq<char>,
        field_name: Seq<char>,
        operator: ValueFilterOperator,
        value: Seq<char>,
    },
    NotEditable,
}

impl View for BarActivation {
    type V = BarActivationView;

    open spec fn view(&self) -> BarActivationView {
        match self {
            BarActivation::OpenMenu => BarActivationView::OpenMenu,
            BarActivation::FocusAdd => BarActivationView::FocusAdd,
            BarActivation::EditShapes { index, included_shapes } => BarActivationView::EditShapes {
                index: *index,
                included_shapes: strings_view(included_shapes@),
            },
            BarActivation::EditFields { index, mode, included_fields } => BarActivationView::EditFields {
                index: *index,
                mode: *mode,
                included_fields: fields_view(included_fields@),
            },
            BarActivation::EditValue { index, field_shape, field_name, operator, value } =>
                BarActivationView::EditValue {
                index: *index,
                field_shape: field_shape@,
                field_name: field_name@,
                operator: *operator,
                value: value@,
            },
            BarActivation::NotEditable => BarActivationView::NotEditable,
        }
    }
}

/// Activating bar position `position` of a tab whose header counts
/// `breadcrumb_count` operations and whose query holds `operations`.
pub open spec fn bar_activation_spec(
    position: usize,
    breadcrumb_count: usize,
    operations: Seq<BreadcrumbView>,
) -> BarActivationView {
    if position >= breadcrumb_count {
        BarActivationView::OpenMenu
    } else if position >= operations.len() {
        BarActivationView::FocusAdd
    } else {
        match operations[position as int] {
            BreadcrumbView::ShapeFilter { included_shapes } => BarActivationView::EditShapes {
                index: position,
                included_shapes,
            },
            BreadcrumbView::ProjectFields { mode, included_fields } => BarActivationView::EditFields {
                index: position,
                mode,
                included_fields,
            },
            BreadcrumbView::ValueFilter { field_shape, field_name, operator, value } =>
                BarActivationView::EditValue {
                index: position,
                field_shape,
                field_name,
                operator,
                value,
            },
            _ => BarActivationView::NotEditable,
        }
    }
}

pub fn bar_activation(focus: BreadcrumbBarFocus, breadcrumb_count: usize, operations: &[Breadcrumb]) -> (step:
    BarActivation)
    ensures
        step@ == bar_activation_spec(
            focus.position,
            breadcrumb_count,
            operations@.map_values(|b: Breadcrumb| b@),
        ),
{
    let index = match focus.operation(breadcrumb_count) {
        Some(index) => index,
        None => return BarActivation::OpenMenu,
    };
    if index >= operations.len() {
        return BarActivation::FocusAdd;
    }
    match &operations[index] {
        Breadcrumb::ShapeFilter { included_shapes } => BarActivation::EditShapes {
            index,
            included_shapes: copy_strings(included_shapes),
        },
        Breadcrumb::ProjectFields { mode, included_fields } => BarActivation::EditFields {
            index,
            mode: *mode,
            included_fields: copy_fields(included_fields),
        },
        Breadcrumb::ValueFilter { field_shape, field_name, operator, value } => BarActivation::EditValue {
            index,
            field_shape: field_shape.clone(),
            field_name: field_name.clone(),
            operator: *operator,
            value: value.clone(),
        },
        _ => BarActivation::NotEditable,
    }
}

/// The value a new breadcrumb is chosen for, with the name of its shape:
/// the target of the focused relationship row (named by the row's type,
/// else by the card's shape), else the selected card itself. The
/// create-object card, or no card, offers none.
pub open spec fn picker_subject_spec(card: Option<CardView>, focused: Option<RowKeyView>) -> Option<
    (AddressView, Seq<char>),
> {
    match card {
        None => None,
        Some(c) => match c.address {
            CardAddressView::NewSlot => None,
            CardAddressView::Value(address) => {
                let position = focused_position(c.rows, focused);
                if position matches Some(p) && c.rows[p].content is Address {
                    let row = c.rows[position.unwrap()];
                    Some(
                        (
                            row.content->Address_0,
                            match row.type_label {
                                Some(t) => t,
                                None => c.shape,
                            },
                        ),
                    )
                } else {
                    Some((address, c.shape))
                }
            },
        },
    }
}

pub fn picker_subject(card: Option<&CardSnapshot>, focused: Option<&CardRowKey>) -> (subject: Option<
    (ValueAddress, String),
>)
    ensures
        match subject {
            Some((address, shape)) => picker_subject_spec(
                match card {
                    Some(c) => Some(c@),
                    None => None,
                },
                match focused {
                    Some(k) => Some(k@),
                    None => None,
                },
            ) == Some((address@, shape@)),
            None => picker_subject_spec(
                match card {
                    Some(c) => Some(c@),
                    None => None,
                },
                match focused {
                    Some(k) => Some(k@),
                    None => None,
                },
            ) is None,
        },
{
    let card = match card {
        Some(card) => card,
        None => return None,
    };
    let address = match card.address() {
        crate::explorer::card_address::CardAddress::Value(address) => address,
        crate::explorer::card_address::CardAddress::NewSlot => return None,
    };
    let rows = card.rows();
    if let Some(p) = focused_index(rows, focused) {
        proof {
            assert(rows_view(rows@)[p as int] == rows@[p as int]@);
        }
        let row = &rows[p];
        if let crate::explorer::card::CardRowContent::Address(target) = row.content() {
            let shape = match row.type_label() {
                Some(label) => String::from_str(label),
                None => String::from_str(card.shape()),
            };
            return Some((target.duplicate(), shape));
        }
    }
    Some((address.duplicate(), String::from_str(card.shape())))
}

} // verus!
