//! The small text editors of the browser (a building root's scalar value,
//! a value filter's text, a tab's name), the field link that waits for a
//! new source value to be built, and the status lines tab edits report.
use vstd::prelude::*;
use crate::browser::breadcrumb_choice::BreadcrumbEdit;
use crate::explorer::breadcrumb::{Breadcrumb, BreadcrumbView, ValueFilterOperator};
use crate::explorer::builder::{BuilderKindSnapshot, BuilderSnapshot};
use crate::explorer::ids::SlotId;
use crate::explorer::value_address::{AddressView, ValueAddress};
use crate::text::{decimal, pop_char, push_char, push_decimal, push_text};

verus! {

/// Editing the scalar value of building root `slot`, of the shape named
/// `shape_name`, as text.
pub struct TextEditorState {
    pub slot: SlotId,
    pub shape_name: String,
    pub text: String,
}

impl TextEditorState {
    /// Appends a typed character.
    pub fn push(&mut self, c: char)
        ensures
            final(self).text@ == old(self).text@.push(c),
            final(self).slot == old(self).slot,
            final(self).shape_name == old(self).shape_name,
    {
        push_char(&mut self.text, c);
    }

    /// Deletes the last character, if any.
    pub fn pop(&mut self)
        ensures
            final(self).text@ == (if old(self).text@.len() == 0 {
                old(self).text@
            } else {
                old(self).text@.drop_last()
            }),
            final(self).slot == old(self).slot,
            final(self).shape_name == old(self).shape_name,
    {
        pop_char(&mut self.text);
    }
}

/// The scalar editor that opens for building root `slot`: only when the
/// root snapshot at hand builds a scalar of a chosen shape, starting empty.
pub fn scalar_editor_for_root(slot: SlotId, builder: Option<&BuilderSnapshot>) -> (editor: Option<
    TextEditorState,
>)
    ensures
        match builder {
            Some(b) => match (b.shape_name_view(), b.kind_view()) {
                (Some(shape), BuilderKindSnapshot::Scalar { .. }) => editor matches Some(e) && e.slot
                    == slot && e.shape_name@ == shape && e.text@.len() == 0,
                _ => editor is None,
            },
            None => editor is None,
        },
{
    let builder = match builder {
        Some(builder) => builder,
        None => return None,
    };
    let shape = match builder.shape_name() {
        Some(shape) => shape,
        None => return None,
    };
    match builder.kind() {
        BuilderKindSnapshot::Scalar { .. } => Some(
            TextEditorState { slot, shape_name: String::from_str(shape), text: String::new() },
        ),
        _ => None,
    }
}

/// Editing the value of a value filter, new or replacing the one at
/// `edit_index`.
pub struct BreadcrumbValueEditorState {
    pub edit_index: Option<usize>,
    pub field_shape: String,
    pub field_name: String,
    pub operator: ValueFilterOperator,
    pub text: String,
}

impl BreadcrumbValueEditorState {
    pub fn push(&mut self, c: char)
        ensures
            final(self).text@ == old(self).text@.push(c),
            final(self).edit_index == old(self).edit_index,
            final(self).field_shape == old(self).field_shape,
            final(self).field_name == old(self).field_name,
            final(self).operator == old(self).operator,
    {
        push_char(&mut self.text, c);
    }

    pub fn pop(&mut self)
        ensures
            final(self).text@ == (if old(self).text@.len() == 0 {
                old(self).text@
            } else {
                old(self).text@.drop_last()
            }),
            final(self).edit_index == old(self).edit_index,
            final(self).field_shape == old(self).field_shape,
            final(self).field_name == old(self).field_name,
            final(self).operator == old(self).operator,
    {
        pop_char(&mut self.text);
    }

    /// The value filter the editor's text makes, pushed as a new operation
    /// or replacing the edited one.
    pub fn finish(self) -> (edit: BreadcrumbEdit)
        ensures
            ({
                let filter = match edit {
                    BreadcrumbEdit::Push(b) => b@,
                    BreadcrumbEdit::Replace { breadcrumb, .. } => breadcrumb@,
                };
                filter == (BreadcrumbView::ValueFilter {
                    field_shape: self.field_shape@,
                    field_name: self.field_name@,
                    operator: self.operator,
                    value: self.text@,
                })
            }),
            match self.edit_index {
                Some(index) => edit matches BreadcrumbEdit::Replace { index: i, .. } && i == index,
                None => edit is Push,
            },
    {
        value_filter_edit(self.edit_index, self.field_shape, self.field_name, self.operator, self.text)
    }
}

/// The value filter on field `field_name` of shape `field_shape` comparing
/// by `operator` against `value`: pushed as a new operation, or replacing
/// the one at `edit_index`.
pub fn value_filter_edit(
    edit_index: Option<usize>,
    field_shape: String,
    field_name: String,
    operator: ValueFilterOperator,
    value: String,
) -> (edit: BreadcrumbEdit)
    ensures
        ({
            let filter = match edit {
                BreadcrumbEdit::Push(b) => b@,
                BreadcrumbEdit::Replace { breadcrumb, .. } => breadcrumb@,
            };
            filter == (BreadcrumbView::ValueFilter {
                field_shape: field_shape@,
                field_name: field_name@,
                operator,
                value: value@,
            })
        }),
        match edit_index {
            Some(index) => edit matches BreadcrumbEdit::Replace { index: i, .. } && i == index,
            None => edit is Push,
        },
{
    let breadcrumb = Breadcrumb::ValueFilter { field_shape, field_name, operator, value };
    match edit_index {
        Some(index) => BreadcrumbEdit::Replace { index, breadcrumb },
        None => BreadcrumbEdit::Push(breadcrumb),
    }
}

/// A builder field waiting to be linked to the value at `source` once that
/// value is ready.
pub struct PendingFieldLink {
    pub destination: SlotId,
    pub field: usize,
    pub source: ValueAddress,
}

/// Whether the link's choices open now: root `slot` just became ready and
/// it is the root the pending link waits for.
pub fn link_source_ready(link: Option<&PendingFieldLink>, slot: SlotId, became_ready: bool) -> (ready:
    bool)
    ensures
        ready == (became_ready && (link matches Some(l) && l.source@ == (AddressView {
            root: slot.0,
            path: Seq::empty(),
        }))),
{
    if !became_ready {
        return false;
    }
    match link {
        Some(link) => link.source.same_as(&ValueAddress::root(slot)),
        None => false,
    }
}

/// "Tab slot N now has K lazy breadcrumb operations."
pub fn query_change_status(tab: SlotId, breadcrumb_count: usize) -> (status: String)
    ensures
        status@ == "Tab slot "@ + decimal(tab.0 as nat) + " now has "@ + decimal(
            breadcrumb_count as nat,
        ) + " lazy breadcrumb operations."@,
{
    let mut status = String::from_str("Tab slot ");
    push_decimal(&mut status, tab.0);
    push_text(&mut status, " now has ");
    push_decimal(&mut status, breadcrumb_count as u64);
    push_text(&mut status, " lazy breadcrumb operations.");
    status
}

/// "Renamed tab slot N to NAME."
pub fn renamed_status(tab: SlotId, name: &str) -> (status: String)
    ensures
        status@ == "Renamed tab slot "@ + decimal(tab.0 as nat) + " to "@ + name@ + "."@,
{
    let mut status = String::from_str("Renamed tab slot ");
    push_decimal(&mut status, tab.0);
    push_text(&mut status, " to ");
    push_text(&mut status, name);
    push_text(&mut status, ".");
    status
}

/// "Switched to tab slot N."
pub fn switched_status(tab: SlotId) -> (status: String)
    ensures
        status@ == "Switched to tab slot "@ + decimal(tab.0 as nat) + "."@,
{
    let mut status = String::from_str("Switched to tab slot ");
    push_decimal(&mut status, tab.0);
    push_text(&mut status, ".");
    status
}

/// "Closed tab; active tab is slot N."
pub fn closed_status(tab: SlotId) -> (status: String)
    ensures
        status@ == "Closed tab; active tab is slot "@ + decimal(tab.0 as nat) + "."@,
{
    let mut status = String::from_str("Closed tab; active tab is slot ");
    push_decimal(&mut status, tab.0);
    push_text(&mut status, ".");
    status
}

} // verus!
