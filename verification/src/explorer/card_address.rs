use vstd::prelude::*;
use crate::explorer::value_address::{AddressView, ValueAddress};

verus! {

/// Logical identity of a navigable card: a reflected value, or the trailing
/// create-object card.
#[derive(Clone, Debug, PartialEq, Eq, Hash)]
pub enum CardAddress {
    Value(ValueAddress),
    NewSlot,
}

pub enum CardAddressView {
    Value(AddressView),
    NewSlot,
}

impl View for CardAddress {
    type V = CardAddressView;

    open spec fn view(&self) -> CardAddressView {
        match self {
            CardAddress::Value(address) => CardAddressView::Value(address@),
            CardAddress::NewSlot => CardAddressView::NewSlot,
        }
    }
}

impl CardAddress {
    /// An equal copy of this card address.
    pub fn duplicate(&self) -> (copy: CardAddress)
        ensures
            copy@ == self@,
    {
        match self {
            CardAddress::Value(address) => CardAddress::Value(address.duplicate()),
            CardAddress::NewSlot => CardAddress::NewSlot,
        }
    }

    /// Whether two card addresses name the same card.
    pub fn same_as(&self, other: &CardAddress) -> (same: bool)
        ensures
            same == (self@ == other@),
    {
        match (self, other) {
            (CardAddress::Value(a), CardAddress::Value(b)) => a.same_as(b),
            (CardAddress::NewSlot, CardAddress::NewSlot) => true,
            _ => false,
        }
    }
}

} // verus!
