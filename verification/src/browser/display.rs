//! Text the browser shows for card addresses and row contents.
use vstd::prelude::*;
use crate::explorer::card::{BindingView, CardRowContent, ContentView, FieldBindingSnapshot};
use crate::explorer::card_address::{CardAddress, CardAddressView};
use crate::explorer::value_address::address_text;
use crate::text::{decimal, push_decimal};

verus! {

pub open spec fn card_address_text(address: CardAddressView) -> Seq<char> {
    match address {
        CardAddressView::Value(address) => address_text(address),
        CardAddressView::NewSlot => "new slot"@,
    }
}

/// How a builder binding reads in a row; `default_text` is the text of a
/// field left at its default.
pub open spec fn binding_text(binding: BindingView, default_text: Seq<char>) -> Seq<char> {
    match binding {
        BindingView::Unset => "unset"@,
        BindingView::Default => default_text,
        BindingView::InlineOwned { shape } => "inline "@ + shape,
        BindingView::CloneFrom(address) => "clone "@ + address_text(address),
        BindingView::MoveFrom(slot) => "move slot "@ + decimal(slot.0 as nat),
        BindingView::BorrowFrom(address) => "borrow "@ + address_text(address),
        BindingView::PendingProducer => "pending producer"@,
    }
}

/// How a row's content reads; `default_text` as for `binding_text`.
pub open spec fn content_text(content: ContentView, default_text: Seq<char>) -> Seq<char> {
    match content {
        ContentView::Text(text) => text,
        ContentView::Address(address) => address_text(address),
        ContentView::Binding(binding) => binding_text(binding, default_text),
        ContentView::RootAction(action) => action.label@,
    }
}

/// Text of a card address (cards panel).
pub fn display_address(address: &CardAddress) -> (text: String)
    ensures
        text@ == card_address_text(address@),
{
    match address {
        CardAddress::Value(address) => address.text(),
        CardAddress::NewSlot => String::from_str("new slot"),
    }
}

/// Text of a card address (status and tab lines).
pub fn display_card_address(address: &CardAddress) -> (text: String)
    ensures
        text@ == card_address_text(address@),
{
    display_address(address)
}

pub fn binding_display(binding: &FieldBindingSnapshot, default_text: &str) -> (text: String)
    ensures
        text@ == binding_text(binding@, default_text@),
{
    match binding {
        FieldBindingSnapshot::Unset => String::from_str("unset"),
        FieldBindingSnapshot::Default => String::from_str(default_text),
        FieldBindingSnapshot::InlineOwned { shape } => {
            let mut text = String::from_str("inline ");
            text.append(shape.as_str());
            text
        },
        FieldBindingSnapshot::CloneFrom(address) => {
            let mut text = String::from_str("clone ");
            let target = address.text();
            text.append(target.as_str());
            text
        },
        FieldBindingSnapshot::MoveFrom(slot) => {
            let mut text = String::from_str("move slot ");
            push_decimal(&mut text, slot.0);
            text
        },
        FieldBindingSnapshot::BorrowFrom(address) => {
            let mut text = String::from_str("borrow ");
            let target = address.text();
            text.append(target.as_str());
            text
        },
        FieldBindingSnapshot::PendingProducer => String::from_str("pending producer"),
    }
}

/// Text of a row's content, a defaulted binding reading `default_text`.
pub fn content_display(content: &CardRowContent, default_text: &str) -> (text: String)
    ensures
        text@ == content_text(content@, default_text@),
{
    match content {
        CardRowContent::Text(text) => text.clone(),
        CardRowContent::Address(address) => address.text(),
        CardRowContent::Binding(binding) => binding_display(binding, default_text),
        CardRowContent::RootAction(action) => action.label(),
    }
}

/// Text of a row's content as the cards panel shows it.
pub fn display_content(content: &CardRowContent) -> (text: String)
    ensures
        text@ == content_text(content@, "<default>"@),
{
    content_display(content, "<default>")
}

} // verus!
