//! UI-neutral card snapshots: one card per reflected value (or the trailing
//! create-object card), each with semantic rows that are independent of
//! terminal width, plus bounded windows of such cards.
use vstd::prelude::*;
use crate::explorer::card_address::{CardAddress, CardAddressView};
use crate::explorer::ids::SlotId;
use crate::explorer::revision::RootRevision;
use crate::explorer::value_address::{AddressView, SegmentView, ValueAddress, ValuePathSegment};
use crate::text::decimal;
use crate::text::{push_char, push_decimal, push_text};

verus! {

/// Stable semantic identity of a row within one card. Presentation order
/// and terminal line numbers are deliberately absent.
#[derive(Clone, Debug, PartialEq, Eq, Hash)]
pub enum CardRowKey {
    Shape,
    Variant,
    Value,
    Field(String),
    Element(usize),
    MapValue(String),
    Status,
    Action(String),
}

/// Mathematical form of a row key.
pub enum RowKeyView {
    Shape,
    Variant,
    Value,
    Field(Seq<char>),
    Element(usize),
    MapValue(Seq<char>),
    Status,
    Action(Seq<char>),
}

impl View for CardRowKey {
    type V = RowKeyView;

    open spec fn view(&self) -> RowKeyView {
        match self {
            CardRowKey::Shape => RowKeyView::Shape,
            CardRowKey::Variant => RowKeyView::Variant,
            CardRowKey::Value => RowKeyView::Value,
            CardRowKey::Field(name) => RowKeyView::Field(name@),
            CardRowKey::Element(index) => RowKeyView::Element(*index),
            CardRowKey::MapValue(key) => RowKeyView::MapValue(key@),
            CardRowKey::Status => RowKeyView::Status,
            CardRowKey::Action(id) => RowKeyView::Action(id@),
        }
    }
}

impl CardRowKey {
    /// Whether both keys name the same row.
    pub fn same_as(&self, other: &CardRowKey) -> (same: bool)
        ensures
            same == (self@ == other@),
    {
        match (self, other) {
            (CardRowKey::Shape, CardRowKey::Shape) => true,
            (CardRowKey::Variant, CardRowKey::Variant) => true,
            (CardRowKey::Value, CardRowKey::Value) => true,
            (CardRowKey::Field(a), CardRowKey::Field(b)) => *a == *b,
            (CardRowKey::Element(a), CardRowKey::Element(b)) => *a == *b,
            (CardRowKey::MapValue(a), CardRowKey::MapValue(b)) => *a == *b,
            (CardRowKey::Status, CardRowKey::Status) => true,
            (CardRowKey::Action(a), CardRowKey::Action(b)) => *a == *b,
            _ => false,
        }
    }

    /// An identical copy of this key.
    pub fn duplicate(&self) -> (copy: CardRowKey)
        ensures
            copy == *self,
    {
        match self {
            CardRowKey::Shape => CardRowKey::Shape,
            CardRowKey::Variant => CardRowKey::Variant,
            CardRowKey::Value => CardRowKey::Value,
            CardRowKey::Field(name) => CardRowKey::Field(name.clone()),
            CardRowKey::Element(index) => CardRowKey::Element(*index),
            CardRowKey::MapValue(key) => CardRowKey::MapValue(key.clone()),
            CardRowKey::Status => CardRowKey::Status,
            CardRowKey::Action(id) => CardRowKey::Action(id.clone()),
        }
    }
}

/// UI-neutral, non-owning description of a builder field.
#[derive(Clone, Debug, PartialEq, Eq)]
pub enum FieldBindingSnapshot {
    Unset,
    Default,
    InlineOwned { shape: String },
    CloneFrom(ValueAddress),
    MoveFrom(SlotId),
    BorrowFrom(ValueAddress),
    PendingProducer,
}

pub enum BindingView {
    Unset,
    Default,
    InlineOwned { shape: Seq<char> },
    CloneFrom(AddressView),
    MoveFrom(SlotId),
    BorrowFrom(AddressView),
    PendingProducer,
}

impl View for FieldBindingSnapshot {
    type V = BindingView;

    open spec fn view(&self) -> BindingView {
        match self {
            FieldBindingSnapshot::Unset => BindingView::Unset,
            FieldBindingSnapshot::Default => BindingView::Default,
            FieldBindingSnapshot::InlineOwned { shape } => BindingView::InlineOwned { shape: shape@ },
            FieldBindingSnapshot::CloneFrom(address) => BindingView::CloneFrom(address@),
            FieldBindingSnapshot::MoveFrom(slot) => BindingView::MoveFrom(*slot),
            FieldBindingSnapshot::BorrowFrom(address) => BindingView::BorrowFrom(address@),
            FieldBindingSnapshot::PendingProducer => BindingView::PendingProducer,
        }
    }
}

impl FieldBindingSnapshot {
    pub fn duplicate(&self) -> (copy: FieldBindingSnapshot)
        ensures
            copy@ == self@,
    {
        match self {
            FieldBindingSnapshot::Unset => FieldBindingSnapshot::Unset,
            FieldBindingSnapshot::Default => FieldBindingSnapshot::Default,
            FieldBindingSnapshot::InlineOwned { shape } => FieldBindingSnapshot::InlineOwned {
                shape: shape.clone(),
            },
            FieldBindingSnapshot::CloneFrom(address) => FieldBindingSnapshot::CloneFrom(
                address.duplicate(),
            ),
            FieldBindingSnapshot::MoveFrom(slot) => FieldBindingSnapshot::MoveFrom(*slot),
            FieldBindingSnapshot::BorrowFrom(address) => FieldBindingSnapshot::BorrowFrom(
                address.duplicate(),
            ),
            FieldBindingSnapshot::PendingProducer => FieldBindingSnapshot::PendingProducer,
        }
    }
}

/// One action a root card offers (such as invoking a registered function
/// on the root): its stable row identity and its display label.
#[derive(Clone, Debug, PartialEq, Eq)]
pub struct RootActionSnapshot {
    pub id: String,
    pub label: String,
}

impl RootActionSnapshot {
    pub fn new(id: &str, label: &str) -> (action: RootActionSnapshot)
        ensures
            action.id@ == id@,
            action.label@ == label@,
    {
        RootActionSnapshot { id: String::from_str(id), label: String::from_str(label) }
    }

    pub fn id(&self) -> (id: String)
        ensures
            id == self.id,
    {
        self.id.clone()
    }

    pub fn label(&self) -> (label: String)
        ensures
            label == self.label,
    {
        self.label.clone()
    }

    pub fn duplicate(&self) -> (copy: RootActionSnapshot)
        ensures
            copy == *self,
    {
        RootActionSnapshot { id: self.id.clone(), label: self.label.clone() }
    }
}

#[derive(Clone, Debug, PartialEq, Eq)]
pub enum CardRowContent {
    Text(String),
    Address(ValueAddress),
    Binding(FieldBindingSnapshot),
    RootAction(RootActionSnapshot),
}

pub enum ContentView {
    Text(Seq<char>),
    Address(AddressView),
    Binding(BindingView),
    RootAction(RootActionSnapshot),
}

impl View for CardRowContent {
    type V = ContentView;

    open spec fn view(&self) -> ContentView {
        match self {
            CardRowContent::Text(text) => ContentView::Text(text@),
            CardRowContent::Address(address) => ContentView::Address(address@),
            CardRowContent::Binding(binding) => ContentView::Binding(binding@),
            CardRowContent::RootAction(action) => ContentView::RootAction(*action),
        }
    }
}

impl CardRowContent {
    pub fn duplicate(&self) -> (copy: CardRowContent)
        ensures
            copy@ == self@,
    {
        match self {
            CardRowContent::Text(text) => CardRowContent::Text(text.clone()),
            CardRowContent::Address(address) => CardRowContent::Address(address.duplicate()),
            CardRowContent::Binding(binding) => CardRowContent::Binding(binding.duplicate()),
            CardRowContent::RootAction(action) => CardRowContent::RootAction(action.duplicate()),
        }
    }
}

pub open spec fn option_text(text: Option<String>) -> Option<Seq<char>> {
    match text {
        Some(t) => Some(t@),
        None => None,
    }
}

/// Mathematical form of a row.
pub struct RowView {
    pub key: CardRowKey,
    pub label: Seq<char>,
    pub type_label: Option<Seq<char>>,
    pub value_display: Option<Seq<char>>,
    pub content: ContentView,
}

/// One semantic row, independent of terminal width or visual wrapping.
#[derive(Clone, Debug, PartialEq, Eq)]
pub struct CardRowSnapshot {
    key: CardRowKey,
    label: String,
    type_label: Option<String>,
    value_display: Option<String>,
    content: CardRowContent,
}

impl View for CardRowSnapshot {
    type V = RowView;

    closed spec fn view(&self) -> RowView {
        RowView {
            key: self.key,
            label: self.label@,
            type_label: option_text(self.type_label),
            value_display: option_text(self.value_display),
            content: self.content@,
        }
    }
}

fn copy_text(text: &Option<String>) -> (copy: Option<String>)
    ensures
        option_text(copy) == option_text(*text),
{
    match text {
        Some(t) => Some(t.clone()),
        None => None,
    }
}

impl CardRowSnapshot {
    pub fn new(key: CardRowKey, label: &str, content: CardRowContent) -> (row: CardRowSnapshot)
        ensures
            row@ == (RowView {
                key,
                label: label@,
                type_label: None,
                value_display: None,
                content: content@,
            }),
    {
        CardRowSnapshot {
            key,
            label: String::from_str(label),
            type_label: None,
            value_display: None,
            content,
        }
    }

    pub fn with_type_label(self, type_label: &str) -> (row: CardRowSnapshot)
        ensures
            row@ == (RowView { type_label: Some(type_label@), ..self@ }),
    {
        CardRowSnapshot { type_label: Some(String::from_str(type_label)), ..self }
    }

    pub fn with_value_display(self, value: &str) -> (row: CardRowSnapshot)
        ensures
            row@ == (RowView { value_display: Some(value@), ..self@ }),
    {
        CardRowSnapshot { value_display: Some(String::from_str(value)), ..self }
    }

    pub fn key(&self) -> (key: &CardRowKey)
        ensures
            *key == self@.key,
    {
        &self.key
    }

    pub fn label(&self) -> (label: &str)
        ensures
            label@ == self@.label,
    {
        self.label.as_str()
    }

    pub fn type_label(&self) -> (type_label: Option<&str>)
        ensures
            match type_label {
                Some(t) => self@.type_label == Some(t@),
                None => self@.type_label is None,
            },
    {
        match &self.type_label {
            Some(t) => Some(t.as_str()),
            None => None,
        }
    }

    pub fn value_display(&self) -> (value: Option<&str>)
        ensures
            match value {
                Some(v) => self@.value_display == Some(v@),
                None => self@.value_display is None,
            },
    {
        match &self.value_display {
            Some(v) => Some(v.as_str()),
            None => None,
        }
    }

    pub fn content(&self) -> (content: &CardRowContent)
        ensures
            content@ == self@.content,
    {
        &self.content
    }

    pub fn duplicate(&self) -> (copy: CardRowSnapshot)
        ensures
            copy@ == self@,
    {
        CardRowSnapshot {
            key: self.key.duplicate(),
            label: self.label.clone(),
            type_label: copy_text(&self.type_label),
            value_display: copy_text(&self.value_display),
            content: self.content.duplicate(),
        }
    }
}

pub open spec fn rows_view(rows: Seq<CardRowSnapshot>) -> Seq<RowView> {
    rows.map_values(|row: CardRowSnapshot| row@)
}

/// Mathematical form of a card.
pub struct CardView {
    pub address: CardAddressView,
    pub owned_slot: Option<SlotId>,
    pub shape: Seq<char>,
    pub root_revision: RootRevision,
    pub rows: Seq<RowView>,
    pub relationships_complete: bool,
}

/// UI-neutral description of one reflected card.
#[derive(Clone, Debug, PartialEq, Eq)]
pub struct CardSnapshot {
    address: CardAddress,
    owned_slot: Option<SlotId>,
    shape: String,
    root_revision: RootRevision,
    rows: Vec<CardRowSnapshot>,
    relationships_complete: bool,
}

impl View for CardSnapshot {
    type V = CardView;

    closed spec fn view(&self) -> CardView {
        CardView {
            address: self.address@,
            owned_slot: self.owned_slot,
            shape: self.shape@,
            root_revision: self.root_revision,
            rows: rows_view(self.rows@),
            relationships_complete: self.relationships_complete,
        }
    }
}

impl CardSnapshot {
    /// The create-object card.
    pub fn new_slot() -> (card: CardSnapshot)
        ensures
            card@ == (CardView {
                address: CardAddressView::NewSlot,
                owned_slot: None,
                shape: "new object"@,
                root_revision: RootRevision(0),
                rows: Seq::empty(),
                relationships_complete: true,
            }),
    {
        let card = CardSnapshot {
            address: CardAddress::NewSlot,
            owned_slot: None,
            shape: String::from_str("new object"),
            root_revision: RootRevision(0),
            rows: Vec::new(),
            relationships_complete: true,
        };
        assert(card@.rows =~= Seq::<RowView>::empty());
        card
    }

    /// The card of arena root `slot`.
    pub fn owned(
        slot: SlotId,
        shape: &str,
        root_revision: RootRevision,
        rows: Vec<CardRowSnapshot>,
        relationships_complete: bool,
    ) -> (card: CardSnapshot)
        ensures
            card@ == (CardView {
                address: CardAddressView::Value(AddressView { root: slot.0, path: Seq::empty() }),
                owned_slot: Some(slot),
                shape: shape@,
                root_revision,
                rows: rows_view(rows@),
                relationships_complete,
            }),
    {
        CardSnapshot {
            address: CardAddress::Value(ValueAddress::root(slot)),
            owned_slot: Some(slot),
            shape: String::from_str(shape),
            root_revision,
            rows,
            relationships_complete,
        }
    }

    pub fn address(&self) -> (address: &CardAddress)
        ensures
            address@ == self@.address,
    {
        &self.address
    }

    pub fn owned_slot(&self) -> (slot: Option<SlotId>)
        ensures
            slot == self@.owned_slot,
    {
        self.owned_slot
    }

    pub fn shape(&self) -> (shape: &str)
        ensures
            shape@ == self@.shape,
    {
        self.shape.as_str()
    }

    pub fn root_revision(&self) -> (revision: RootRevision)
        ensures
            revision == self@.root_revision,
    {
        self.root_revision
    }

    pub fn rows(&self) -> (rows: &[CardRowSnapshot])
        ensures
            rows_view(rows@) == self@.rows,
    {
        self.rows.as_slice()
    }

    pub fn relationships_complete(&self) -> (complete: bool)
        ensures
            complete == self@.relationships_complete,
    {
        self.relationships_complete
    }

    pub fn duplicate(&self) -> (copy: CardSnapshot)
        ensures
            copy@ == self@,
    {
        let mut rows: Vec<CardRowSnapshot> = Vec::new();
        let mut i: usize = 0;
        while i < self.rows.len()
            invariant
                i <= self.rows.len(),
                rows@.len() == i,
                forall|k: int| 0 <= k < i ==> #[trigger] rows@[k]@ == self.rows@[k]@,
            decreases self.rows.len() - i,
        {
            rows.push(self.rows[i].duplicate());
            i = i + 1;
        }
        assert(rows_view(rows@) =~= rows_view(self.rows@));
        CardSnapshot {
            address: self.address.duplicate(),
            owned_slot: self.owned_slot,
            shape: self.shape.clone(),
            root_revision: self.root_revision,
            rows,
            relationships_complete: self.relationships_complete,
        }
    }
}

/// At most `max_chars` characters of `text`, followed by `…` when some
/// characters were cut off.
pub open spec fn truncated(text: Seq<char>, max_chars: nat) -> Seq<char> {
    if text.len() > max_chars {
        text.take(max_chars as int).push('…')
    } else {
        text
    }
}

/// Bounded summary of a scalar's text.
pub fn truncate(value: &str, max_chars: usize) -> (summary: String)
    ensures
        summary@ == truncated(value@, max_chars as nat),
{
    let chars = crate::text::chars_of(value);
    let mut summary = String::new();
    let mut i: usize = 0;
    while i < chars.len() && i < max_chars
        invariant
            i <= chars.len(),
            i <= max_chars,
            summary@ == chars@.take(i as int),
        decreases chars.len() - i,
    {
        push_char(&mut summary, chars[i]);
        i = i + 1;
        assert(summary@ =~= chars@.take(i as int));
    }
    if i < chars.len() {
        push_char(&mut summary, '…');
    } else {
        assert(chars@.take(i as int) =~= chars@);
    }
    summary
}

pub open spec fn cards_view(cards: Seq<CardSnapshot>) -> Seq<CardView> {
    cards.map_values(|card: CardSnapshot| card@)
}

/// Mathematical form of a card window.
pub struct WindowView {
    pub cards: Seq<CardView>,
    pub start_ordinal: usize,
    pub has_before: bool,
    pub has_after: bool,
}

/// A bounded set of card snapshots for one presentation request.
#[derive(Clone, Debug, PartialEq, Eq)]
pub struct CardWindow {
    cards: Vec<CardSnapshot>,
    start_ordinal: usize,
    has_before: bool,
    has_after: bool,
}

impl View for CardWindow {
    type V = WindowView;

    closed spec fn view(&self) -> WindowView {
        WindowView {
            cards: cards_view(self.cards@),
            start_ordinal: self.start_ordinal,
            has_before: self.has_before,
            has_after: self.has_after,
        }
    }
}

/// The window `including_new_slot` builds from `window` for a viewport of
/// `max_cards` cards.
pub open spec fn with_new_slot(window: WindowView, max_cards: nat) -> WindowView {
    let retained = (max_cards - 1) as nat;
    let start = if window.cards.len() > retained {
        (window.cards.len() - retained) as nat
    } else {
        0nat
    };
    WindowView {
        cards: window.cards.skip(start as int).push(CardSnapshot::new_slot_view()),
        start_ordinal: if window.start_ordinal + start > usize::MAX {
            usize::MAX
        } else {
            (window.start_ordinal + start) as usize
        },
        has_before: window.has_before || start > 0,
        has_after: false,
    }
}

impl CardSnapshot {
    pub open spec fn new_slot_view() -> CardView {
        CardView {
            address: CardAddressView::NewSlot,
            owned_slot: None,
            shape: "new object"@,
            root_revision: RootRevision(0),
            rows: Seq::empty(),
            relationships_complete: true,
        }
    }
}

impl CardWindow {
    pub fn from_cards(
        cards: Vec<CardSnapshot>,
        start_ordinal: usize,
        has_before: bool,
        has_after: bool,
    ) -> (window: CardWindow)
        ensures
            window@ == (WindowView {
                cards: cards_view(cards@),
                start_ordinal,
                has_before,
                has_after,
            }),
    {
        CardWindow { cards, start_ordinal, has_before, has_after }
    }

    /// A window holding only `card`.
    pub fn single(card: CardSnapshot) -> (window: CardWindow)
        ensures
            window@ == (WindowView {
                cards: seq![card@],
                start_ordinal: 0,
                has_before: false,
                has_after: false,
            }),
    {
        let mut cards: Vec<CardSnapshot> = Vec::new();
        cards.push(card);
        let window = CardWindow { cards, start_ordinal: 0, has_before: false, has_after: false };
        assert(window@.cards =~= seq![card@]);
        window
    }

    pub fn cards(&self) -> (cards: &[CardSnapshot])
        ensures
            cards_view(cards@) == self@.cards,
    {
        self.cards.as_slice()
    }

    pub fn start_ordinal(&self) -> (ordinal: usize)
        ensures
            ordinal == self@.start_ordinal,
    {
        self.start_ordinal
    }

    pub fn has_before(&self) -> (before: bool)
        ensures
            before == self@.has_before,
    {
        self.has_before
    }

    pub fn has_after(&self) -> (after: bool)
        ensures
            after == self@.has_after,
    {
        self.has_after
    }

    /// Adds the create-object card at the end without exceeding a viewport
    /// of `max_cards` cards: the newest cards are kept and the window's
    /// start moves past the ones that no longer fit.
    pub fn including_new_slot(&self, max_cards: usize) -> (window: CardWindow)
        requires
            max_cards > 0,
        ensures
            window@ == with_new_slot(self@, max_cards as nat),
    {
        let retained = max_cards - 1;
        let start = if self.cards.len() > retained {
            self.cards.len() - retained
        } else {
            0
        };
        let mut cards: Vec<CardSnapshot> = Vec::new();
        let mut i: usize = start;
        while i < self.cards.len()
            invariant
                start <= i <= self.cards.len(),
                cards@.len() == i - start,
                forall|k: int| 0 <= k < i - start ==> #[trigger] cards@[k]@ == self.cards@[start + k]@,
            decreases self.cards.len() - i,
        {
            cards.push(self.cards[i].duplicate());
            i = i + 1;
        }
        let ghost kept = cards@;
        cards.push(CardSnapshot::new_slot());
        let start_ordinal = if self.start_ordinal > usize::MAX - start {
            usize::MAX
        } else {
            self.start_ordinal + start
        };
        let window = CardWindow {
            cards,
            start_ordinal,
            has_before: self.has_before || start > 0,
            has_after: false,
        };
        assert(window@.cards =~= self@.cards.skip(start as int).push(
            CardSnapshot::new_slot_view(),
        ));
        window
    }
}

/// Law: after `including_new_slot` the window fits the viewport, ends with
/// the create-object card, keeps the newest cards of the given window in
/// order, and shows nothing after itself.
pub proof fn law_new_slot_keeps_tail_window_within_viewport(window: WindowView, max_cards: nat)
    requires
        max_cards > 0,
        window.start_ordinal + window.cards.len() <= usize::MAX,
    ensures
        ({
            let result = with_new_slot(window, max_cards);
            let kept = (result.cards.len() - 1) as int;
            &&& result.cards.len() <= max_cards
            &&& result.cards.last() == CardSnapshot::new_slot_view()
            &&& kept <= window.cards.len()
            &&& forall|k: int|
                0 <= k < kept ==> #[trigger] result.cards[k] == window.cards[window.cards.len()
                    - kept + k]
            &&& result.start_ordinal == window.start_ordinal + window.cards.len() - kept
            &&& !result.has_after
        }),
{
}

/// `<str as Debug>` text of `text`: quoted, with special characters
/// escaped as std's `escape_debug` does.
pub uninterp spec fn debug_quoted(text: Seq<char>) -> Seq<char>;

/// std's `Debug` formatting of a string. The result is a function of the
/// text alone, named `debug_quoted`; the escaping rules are not stated.
#[verifier::external_body]
fn debug_text(text: &str) -> (quoted: String)
    ensures
        quoted@ == debug_quoted(text@),
{
    format!("{text:?}")
}

/// The key and label of the row showing the child reached by `segment`: a
/// field by its name, an element as `[i]`, a map value as `["key"]`.
pub open spec fn relationship_key(segment: SegmentView) -> (RowKeyView, Seq<char>) {
    match segment {
        SegmentView::Field(name) => (RowKeyView::Field(name), name),
        SegmentView::Index(index) => (
            RowKeyView::Element(index as usize),
            seq!['['] + crate::text::decimal(index) + seq![']'],
        ),
        SegmentView::Key(key) => (RowKeyView::MapValue(key), seq!['['] + debug_quoted(key) + seq![']']),
    }
}

/// The row of a card that shows the child at `address` (its type named
/// `type_label`, with its scalar summary `value_display` when it has one).
pub fn relationship_row(address: ValueAddress, type_label: &str, value_display: Option<&str>) -> (row:
    CardRowSnapshot)
    requires
        address@.path.len() > 0,
    ensures
        row@.key@ == relationship_key(address@.path.last()).0,
        row@.label == relationship_key(address@.path.last()).1,
        row@.type_label == Some(type_label@),
        row@.value_display == match value_display {
            Some(v) => Some(v@),
            None => None,
        },
        row@.content == ContentView::Address(address@),
{
    let segments = address.path().segments();
    let last = &segments[segments.len() - 1];
    assert(address@.path.last() == segments@[segments@.len() - 1]@);
    let (key, label) = match last {
        ValuePathSegment::Field(name) => (CardRowKey::Field(name.clone()), name.clone()),
        ValuePathSegment::Index(index) => {
            let mut label = String::new();
            push_char(&mut label, '[');
            push_decimal(&mut label, *index as u64);
            push_char(&mut label, ']');
            (CardRowKey::Element(*index), label)
        },
        ValuePathSegment::Key(key) => {
            let mut label = String::new();
            push_char(&mut label, '[');
            let quoted = debug_text(key.as_str());
            push_text(&mut label, quoted.as_str());
            push_char(&mut label, ']');
            (CardRowKey::MapValue(key.clone()), label)
        },
    };
    let row = CardRowSnapshot::new(key, label.as_str(), CardRowContent::Address(address));
    let row = row.with_type_label(type_label);
    match value_display {
        Some(value) => row.with_value_display(value),
        None => row,
    }
}

/// The rows of a card observed at `address`: its shape; then either its
/// children (at most `max` of them, from `children`) or, for a value
/// without children, its scalar summary when it has one; then, for an
/// owned root, as many of `actions` as the remaining budget admits; and
/// whether nothing was cut off.
pub open spec fn observed_rows(
    shape_row: RowView,
    children: Option<Seq<RowView>>,
    summary_row: Option<RowView>,
    owned: bool,
    actions: Seq<RowView>,
    max: nat,
) -> (Seq<RowView>, bool) {
    let (relationships, admitted, children_complete) = observed_relationships(children, summary_row, max);
    let remaining = if max >= admitted { (max - admitted) as nat } else { 0 };
    let (shown_actions, actions_complete) = if !owned {
        (Seq::empty(), true)
    } else if actions.len() <= remaining {
        (actions, true)
    } else {
        (actions.take(remaining as int), false)
    };
    (seq![shape_row] + relationships + shown_actions, children_complete && actions_complete)
}

/// The child rows shown (or the summary row of a value without children),
/// how many children were admitted, and whether all children fit.
pub open spec fn observed_relationships(
    children: Option<Seq<RowView>>,
    summary_row: Option<RowView>,
    max: nat,
) -> (Seq<RowView>, nat, bool) {
    match children {
        Some(rows) => if rows.len() <= max {
            (rows, rows.len(), true)
        } else {
            (rows.take(max as int), max, false)
        },
        None => match summary_row {
            Some(row) => (seq![row], 0nat, true),
            None => (Seq::empty(), 0nat, true),
        },
    }
}

pub open spec fn action_row(action: RootActionSnapshot) -> RowView {
    RowView {
        key: CardRowKey::Action(action.id),
        label: "action"@,
        type_label: None,
        value_display: None,
        content: ContentView::RootAction(action),
    }
}

fn take_rows(rows: Vec<CardRowSnapshot>, count: usize) -> (kept: Vec<CardRowSnapshot>)
    ensures
        rows_view(kept@) == rows_view(rows@).take(if count < rows@.len() { count as int } else { rows@.len() as int }),
{
    let mut rows = rows;
    let ghost all = rows_view(rows@);
    if count < rows.len() {
        rows.truncate(count);
    }
    assert(rows_view(rows@) =~= all.take(if count < all.len() { count as int } else { all.len() as int }));
    rows
}

impl CardSnapshot {
    /// The card of the value at `address`, of the shape named `shape`:
    /// `children` are the rows of its children (`None` when it has none to
    /// list, and then `scalar_summary` is its summary, if any); `actions`
    /// are the actions an owned root offers. At most
    /// `max_relationship_rows` children and actions are shown in all.
    pub fn observe(
        address: ValueAddress,
        shape: &str,
        root_revision: RootRevision,
        children: Option<Vec<CardRowSnapshot>>,
        scalar_summary: Option<&str>,
        actions: Vec<RootActionSnapshot>,
        max_relationship_rows: usize,
    ) -> (card: CardSnapshot)
        ensures
            card@.address == CardAddressView::Value(address@),
            card@.owned_slot == (if address@.path.len() == 0 {
                Some(SlotId(address@.root))
            } else {
                None
            }),
            card@.shape == shape@,
            card@.root_revision == root_revision,
            (card@.rows, card@.relationships_complete) == observed_rows(
                RowView {
                    key: CardRowKey::Shape,
                    label: "shape"@,
                    type_label: None,
                    value_display: None,
                    content: ContentView::Text(shape@),
                },
                match children {
                    Some(rows) => Some(rows_view(rows@)),
                    None => None,
                },
                match scalar_summary {
                    Some(summary) => Some(RowView {
                        key: CardRowKey::Value,
                        label: "value"@,
                        type_label: None,
                        value_display: None,
                        content: ContentView::Text(summary@),
                    }),
                    None => None,
                },
                address@.path.len() == 0,
                actions@.map_values(|a: RootActionSnapshot| action_row(a)),
                max_relationship_rows as nat,
            ),
    {
        let ghost children_view = match &children {
            Some(rows) => Some(rows_view(rows@)),
            None => None,
        };
        let ghost summary_view = match scalar_summary {
            Some(summary) => Some(RowView {
                key: CardRowKey::Value,
                label: "value"@,
                type_label: None,
                value_display: None,
                content: ContentView::Text(summary@),
            }),
            None => None,
        };
        let ghost expected = observed_relationships(children_view, summary_view, max_relationship_rows as nat);
        let mut rows: Vec<CardRowSnapshot> = Vec::new();
        rows.push(CardRowSnapshot::new(CardRowKey::Shape, "shape", CardRowContent::Text(String::from_str(shape))));
        let ghost shape_rows = rows_view(rows@);
        let mut complete = true;
        let mut admitted: usize = 0;
        match children {
            Some(listed) => {
                let count = listed.len();
                complete = count <= max_relationship_rows;
                admitted = if count <= max_relationship_rows { count } else { max_relationship_rows };
                let mut kept = take_rows(listed, max_relationship_rows);
                let ghost kept_view = rows_view(kept@);
                rows.append(&mut kept);
                assert(rows_view(rows@) =~= shape_rows + kept_view);
            },
            None => match scalar_summary {
                Some(summary) => {
                    rows.push(CardRowSnapshot::new(CardRowKey::Value, "value", CardRowContent::Text(String::from_str(summary))));
                    assert(rows_view(rows@) =~= shape_rows + expected.0);
                },
                None => {
                    assert(rows_view(rows@) =~= shape_rows + expected.0);
                },
            },
        }
        assert(rows_view(rows@) == shape_rows + expected.0);
        assert(admitted == expected.1);
        assert(complete == expected.2);
        let owned = address.is_root();
        let owned_slot = if owned { Some(address.root_id()) } else { None };
        if owned {
            let remaining = max_relationship_rows - admitted;
            let ghost before = rows_view(rows@);
            let ghost all_actions = actions@.map_values(|a: RootActionSnapshot| action_row(a));
            let mut i: usize = 0;
            while i < actions.len() && i < remaining
                invariant
                    i <= actions@.len(),
                    i <= remaining,
                    all_actions == actions@.map_values(|a: RootActionSnapshot| action_row(a)),
                    rows_view(rows@) == before + all_actions.take(i as int),
                decreases actions.len() - i,
            {
                let action = actions[i].duplicate();
                let row = CardRowSnapshot::new(CardRowKey::Action(action.id()), "action", CardRowContent::RootAction(action));
                assert(row@ == all_actions[i as int]);
                let ghost grown = rows_view(rows@).push(row@);
                rows.push(row);
                assert(rows_view(rows@) =~= grown);
                assert(all_actions.take(i + 1) =~= all_actions.take(i as int).push(all_actions[i as int]));
                i = i + 1;
                assert(rows_view(rows@) =~= before + all_actions.take(i as int));
            }
            if actions.len() > remaining {
                complete = false;
            } else {
                assert(all_actions.take(i as int) =~= all_actions);
            }
            assert(rows_view(rows@) =~= shape_rows + expected.0 + (if all_actions.len() <= remaining {
                all_actions
            } else {
                all_actions.take(remaining as int)
            }));
        } else {
            assert(rows_view(rows@) =~= shape_rows + expected.0 + Seq::<RowView>::empty());
        }
        CardSnapshot {
            address: CardAddress::Value(address),
            owned_slot,
            shape: String::from_str(shape),
            root_revision,
            rows,
            relationships_complete: complete,
        }
    }
}

} // verus!
