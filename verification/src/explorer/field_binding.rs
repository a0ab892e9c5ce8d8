//! Explicit construction semantics for one field of a builder, and the
//! non-owning snapshot the browser sees of it.
use vstd::prelude::*;
use crate::explorer::card::{BindingView, FieldBindingSnapshot};
use crate::explorer::field_candidate::FieldBindingError;
use crate::explorer::ids::SlotId;
use crate::explorer::value_address::ValueAddress;

verus! {

/// How one builder field will be filled. `V` is the type of the owned
/// values the arena holds.
pub enum FieldBinding<V> {
    Unset,
    Default,
    InlineOwned(V),
    CloneFrom(ValueAddress),
    MoveFrom(SlotId),
    BorrowFrom(ValueAddress),
    PendingProducer,
}

impl<V> FieldBinding<V> {
    /// A move of the root at `address`; only an owned root can be moved, a
    /// reflected projection cannot.
    pub fn move_from_address(address: ValueAddress) -> (result: Result<
        FieldBinding<V>,
        FieldBindingError,
    >)
        ensures
            address@.path.len() == 0 ==> (result matches Ok(FieldBinding::MoveFrom(slot))
                && slot.0 == address@.root),
            address@.path.len() > 0 ==> (result matches Err(
                FieldBindingError::NestedMoveSource(nested),
            ) && nested@ == address@),
    {
        if !address.is_root() {
            return Err(FieldBindingError::NestedMoveSource(address));
        }
        Ok(FieldBinding::MoveFrom(address.root_id()))
    }

    /// Whether the field has a way to be filled now.
    pub fn is_resolved(&self) -> (resolved: bool)
        ensures
            resolved == !(self is Unset || self is PendingProducer),
    {
        match self {
            FieldBinding::Unset | FieldBinding::PendingProducer => false,
            _ => true,
        }
    }

    /// Name of the binding's kind.
    pub fn label(&self) -> (label: &'static str)
        ensures
            self is Unset ==> label@ == "Unset"@,
            self is Default ==> label@ == "Default"@,
            self is InlineOwned ==> label@ == "InlineOwned"@,
            self is CloneFrom ==> label@ == "CloneFrom"@,
            self is MoveFrom ==> label@ == "MoveFrom"@,
            self is BorrowFrom ==> label@ == "BorrowFrom"@,
            self is PendingProducer ==> label@ == "PendingProducer"@,
    {
        match self {
            FieldBinding::Unset => "Unset",
            FieldBinding::Default => "Default",
            FieldBinding::InlineOwned(_) => "InlineOwned",
            FieldBinding::CloneFrom(_) => "CloneFrom",
            FieldBinding::MoveFrom(_) => "MoveFrom",
            FieldBinding::BorrowFrom(_) => "BorrowFrom",
            FieldBinding::PendingProducer => "PendingProducer",
        }
    }
}

/// The snapshot view of `binding`, an inline value described as
/// `inline_shape`.
pub open spec fn snapshot_view<V>(binding: FieldBinding<V>, inline_shape: Seq<char>) -> BindingView {
    match binding {
        FieldBinding::Unset => BindingView::Unset,
        FieldBinding::Default => BindingView::Default,
        FieldBinding::InlineOwned(_) => BindingView::InlineOwned { shape: inline_shape },
        FieldBinding::CloneFrom(address) => BindingView::CloneFrom(address@),
        FieldBinding::MoveFrom(slot) => BindingView::MoveFrom(slot),
        FieldBinding::BorrowFrom(address) => BindingView::BorrowFrom(address@),
        FieldBinding::PendingProducer => BindingView::PendingProducer,
    }
}

impl FieldBindingSnapshot {
    /// The snapshot of `binding`; an inline owned value is described by
    /// `inline_shape`, the display name of its shape.
    pub fn from_binding<V>(binding: &FieldBinding<V>, inline_shape: &str) -> (snapshot:
        FieldBindingSnapshot)
        ensures
            snapshot@ == snapshot_view(*binding, inline_shape@),
    {
        match binding {
            FieldBinding::Unset => FieldBindingSnapshot::Unset,
            FieldBinding::Default => FieldBindingSnapshot::Default,
            FieldBinding::InlineOwned(_) => FieldBindingSnapshot::InlineOwned {
                shape: String::from_str(inline_shape),
            },
            FieldBinding::CloneFrom(address) => FieldBindingSnapshot::CloneFrom(address.duplicate()),
            FieldBinding::MoveFrom(slot) => FieldBindingSnapshot::MoveFrom(*slot),
            FieldBinding::BorrowFrom(address) => FieldBindingSnapshot::BorrowFrom(
                address.duplicate(),
            ),
            FieldBinding::PendingProducer => FieldBindingSnapshot::PendingProducer,
        }
    }
}

} // verus!
