//! What one render of a bounded card window shows: which cards fit, the
//! card scrollbar, each card's title, border tone and lines, and how far a
//! card's lines scroll to keep the selected row in view. The terminal front
//! end only turns these plain values into widgets.
use vstd::prelude::*;
use crate::browser::display::{content_display, content_text, display_address, card_address_text};
use crate::explorer::card::{
    BindingView, CardRowContent, CardRowKey, CardRowSnapshot, CardSnapshot, CardView, CardWindow,
    ContentView, FieldBindingSnapshot, RowKeyView, RowView, rows_view, cards_view,
};
use crate::explorer::card_address::{CardAddress, CardAddressView};
use crate::explorer::end_scan::QueryTotal;
use crate::text::{push_text, same_text};

verus! {

#[derive(Clone, Copy, Debug, PartialEq, Eq, Structural)]
pub enum CardLayoutAxis {
    Horizontal,
    Vertical,
}

/// What one draw of a card window shows: the window, the selected card and
/// row, the layout, and optionally the query total and the rows a search
/// left visible.
pub struct CardWindowRenderer<'window> {
    pub window: &'window CardWindow,
    pub selected_card: &'window CardAddress,
    pub selected_row: Option<&'window CardRowKey>,
    pub axis: CardLayoutAxis,
    pub focused_card_fill: bool,
    pub card_breadth: u16,
    pub query_total: QueryTotal,
    pub visible_rows: Option<&'window [CardRowKey]>,
}

impl<'window> CardWindowRenderer<'window> {
    pub fn new(
        window: &'window CardWindow,
        selected_card: &'window CardAddress,
        selected_row: Option<&'window CardRowKey>,
        axis: CardLayoutAxis,
        focused_card_fill: bool,
        card_breadth: u16,
    ) -> (renderer: CardWindowRenderer<'window>)
        ensures
            renderer.window == window,
            renderer.selected_card == selected_card,
            renderer.selected_row == selected_row,
            renderer.axis == axis,
            renderer.focused_card_fill == focused_card_fill,
            renderer.card_breadth == card_breadth,
            renderer.query_total == QueryTotal::Unknown,
            renderer.visible_rows is None,
    {
        CardWindowRenderer {
            window,
            selected_card,
            selected_row,
            axis,
            focused_card_fill,
            card_breadth,
            query_total: QueryTotal::Unknown,
            visible_rows: None,
        }
    }

    pub fn with_query_total(self, query_total: QueryTotal) -> (renderer: CardWindowRenderer<
        'window,
    >)
        ensures
            renderer == (CardWindowRenderer { query_total, ..self }),
    {
        CardWindowRenderer { query_total, ..self }
    }

    pub fn with_visible_rows(self, visible_rows: Option<&'window [CardRowKey]>) -> (renderer:
        CardWindowRenderer<'window>)
        ensures
            renderer == (CardWindowRenderer { visible_rows, ..self }),
    {
        CardWindowRenderer { visible_rows, ..self }
    }
}

/// The colours the browser draws with.
#[derive(Clone, Copy, Debug, PartialEq, Eq, Structural)]
pub enum Tone {
    White,
    DarkGray,
    Blue,
    Green,
    Yellow,
    Magenta,
    Red,
    Cyan,
}

/// How a piece of text is drawn.
#[derive(Clone, Copy, Debug, PartialEq, Eq, Structural)]
pub struct Look {
    pub tone: Tone,
    pub bold: bool,
    pub dim: bool,
}

/// The accent of the `index`-th relationship row of a card, cycling through
/// four tones.
pub fn field_group_tone(index: usize) -> (tone: Tone)
    ensures
        tone == (if index % 4 == 0 {
            Tone::Blue
        } else if index % 4 == 1 {
            Tone::Green
        } else if index % 4 == 2 {
            Tone::Yellow
        } else {
            Tone::Magenta
        }),
{
    let r = index % 4;
    if r == 0 {
        Tone::Blue
    } else if r == 1 {
        Tone::Green
    } else if r == 2 {
        Tone::Yellow
    } else {
        Tone::Magenta
    }
}

/// The tone of a lifecycle status text.
pub open spec fn status_tone_spec(status: Seq<char>) -> Tone {
    if status == "Building"@ || status == "Pending"@ {
        Tone::Yellow
    } else if status == "Failed"@ {
        Tone::Red
    } else if status == "Cancelled"@ || status == "Consumed"@ || status == "Tombstone"@ {
        Tone::DarkGray
    } else {
        Tone::Green
    }
}

pub fn status_tone(status: &str) -> (tone: Tone)
    ensures
        tone == status_tone_spec(status@),
{
    if same_text(status, "Building") || same_text(status, "Pending") {
        Tone::Yellow
    } else if same_text(status, "Failed") {
        Tone::Red
    } else if same_text(status, "Cancelled") || same_text(status, "Consumed") || same_text(
        status,
        "Tombstone",
    ) {
        Tone::DarkGray
    } else {
        Tone::Green
    }
}

/// Rows that name a relationship of the value: fields, elements and map
/// values.
pub open spec fn is_relationship(key: RowKeyView) -> bool {
    key is Field || key is Element || key is MapValue
}

pub fn is_relationship_key(key: &CardRowKey) -> (relationship: bool)
    ensures
        relationship == is_relationship(key@),
{
    match key {
        CardRowKey::Field(_) | CardRowKey::Element(_) | CardRowKey::MapValue(_) => true,
        _ => false,
    }
}

/// The first status row of `rows`, if any.
pub open spec fn first_status_row(rows: Seq<RowView>) -> Option<RowView>
    decreases rows.len(),
{
    if rows.len() == 0 {
        None
    } else {
        match first_status_row(rows.drop_last()) {
            Some(row) => Some(row),
            None => if rows.last().key@ is Status {
                Some(rows.last())
            } else {
                None
            },
        }
    }
}

/// The border tone of a card: grey for the create-object card, the status
/// tone of a root with a status row, else green for an owned root and
/// magenta for a projection.
pub open spec fn border_tone(card: CardView) -> Tone {
    if card.address is NewSlot {
        Tone::DarkGray
    } else {
        match first_status_row(card.rows) {
            Some(row) => status_tone_spec(content_text(row.content, "<default>"@)),
            None => if card.owned_slot is Some {
                Tone::Green
            } else {
                Tone::Magenta
            },
        }
    }
}

pub fn card_border_tone(card: &CardSnapshot) -> (tone: Tone)
    ensures
        tone == border_tone(card@),
{
    if let CardAddress::NewSlot = card.address() {
        return Tone::DarkGray;
    }
    assert(!(card@.address is NewSlot));
    let rows = card.rows();
    let ghost rv = card@.rows;
    let mut i: usize = 0;
    while i < rows.len()
        invariant
            rows_view(rows@) == rv,
            rv == card@.rows,
            !(card@.address is NewSlot),
            i <= rows@.len(),
            first_status_row(rv.take(i as int)) is None,
        decreases rows.len() - i,
    {
        assert(rv.take(i + 1).drop_last() =~= rv.take(i as int));
        if let CardRowKey::Status = rows[i].key() {
            let status = content_display(rows[i].content(), "<default>");
            assert(rv[i as int] == rows@[i as int]@);
            assert(rv.take(i + 1).last() == rv[i as int]);
            assert(first_status_row(rv.take(i + 1)) == Some(rv[i as int]));
            proof {
                lemma_first_status_prefix(rv, i as int + 1);
            }
            return status_tone(status.as_str());
        }
        i = i + 1;
    }
    assert(rv.take(rows@.len() as int) =~= rv);
    if card.owned_slot().is_some() {
        Tone::Green
    } else {
        Tone::Magenta
    }
}

proof fn lemma_first_status_prefix(rows: Seq<RowView>, n: int)
    requires
        0 <= n <= rows.len(),
        first_status_row(rows.take(n)) is Some,
    ensures
        first_status_row(rows) == first_status_row(rows.take(n)),
    decreases rows.len() - n,
{
    if n < rows.len() {
        assert(rows.take(n + 1).drop_last() =~= rows.take(n));
        lemma_first_status_prefix(rows, n + 1);
    } else {
        assert(rows.take(n) =~= rows);
    }
}

/// How the content of a row with key `key` is drawn; `accent` is the
/// row's relationship accent.
pub open spec fn content_look_spec(key: RowKeyView, content: ContentView, accent: Tone) -> Look {
    match content {
        ContentView::Text(text) => match key {
            RowKeyView::Shape | RowKeyView::Variant | RowKeyView::Value => Look {
                tone: Tone::Green,
                bold: true,
                dim: false,
            },
            RowKeyView::Status => {
                let tone = status_tone_spec(text);
                Look { tone, bold: tone != Tone::DarkGray && tone != Tone::Green, dim: false }
            },
            _ => Look { tone: Tone::White, bold: false, dim: false },
        },
        ContentView::Address(_) => Look { tone: accent, bold: true, dim: false },
        ContentView::Binding(binding) => match binding {
            BindingView::Unset => Look { tone: Tone::Red, bold: true, dim: false },
            BindingView::PendingProducer => Look { tone: Tone::Yellow, bold: true, dim: false },
            _ => Look { tone: accent, bold: true, dim: false },
        },
        ContentView::RootAction(_) => Look { tone: Tone::Cyan, bold: true, dim: false },
    }
}

/// The text and look of a row's content.
pub fn content_look(row: &CardRowSnapshot, accent: Tone) -> (shown: (String, Look))
    ensures
        shown.0@ == content_text(row@.content, "<default>"@),
        shown.1 == content_look_spec(row@.key@, row@.content, accent),
{
    let text = content_display(row.content(), "<default>");
    let look = match row.content() {
        CardRowContent::Text(content) => match row.key() {
            CardRowKey::Shape | CardRowKey::Variant | CardRowKey::Value => Look {
                tone: Tone::Green,
                bold: true,
                dim: false,
            },
            CardRowKey::Status => {
                let tone = status_tone(content.as_str());
                Look { tone, bold: tone != Tone::DarkGray && tone != Tone::Green, dim: false }
            },
            _ => Look { tone: Tone::White, bold: false, dim: false },
        },
        CardRowContent::Address(_) => Look { tone: accent, bold: true, dim: false },
        CardRowContent::Binding(binding) => match binding {
            FieldBindingSnapshot::Unset => Look { tone: Tone::Red, bold: true, dim: false },
            FieldBindingSnapshot::PendingProducer => Look { tone: Tone::Yellow, bold: true, dim: false },
            _ => Look { tone: accent, bold: true, dim: false },
        },
        CardRowContent::RootAction(_) => Look { tone: Tone::Cyan, bold: true, dim: false },
    };
    (text, look)
}

/// How a row's label is drawn: in its accent for a relationship, dimmed
/// grey otherwise.
pub fn row_label_look(key: &CardRowKey, accent: Tone) -> (look: Look)
    ensures
        look == (if is_relationship(key@) {
            Look { tone: accent, bold: false, dim: false }
        } else {
            Look { tone: Tone::DarkGray, bold: false, dim: true }
        }),
{
    if is_relationship_key(key) {
        Look { tone: accent, bold: false, dim: false }
    } else {
        Look { tone: Tone::DarkGray, bold: false, dim: true }
    }
}

/// The title of a card: "new slot", or its address followed by whether it
/// is an owned root or a projection.
pub open spec fn card_title_spec(card: CardView) -> Seq<char> {
    match card.address {
        CardAddressView::NewSlot => "new slot"@,
        CardAddressView::Value(_) => card_address_text(card.address) + " ["@ + (if card.owned_slot
            is Some {
            "owned"@
        } else {
            "projection"@
        }) + "]"@,
    }
}

pub fn card_title(card: &CardSnapshot) -> (title: String)
    ensures
        title@ == card_title_spec(card@),
{
    match card.address() {
        CardAddress::NewSlot => String::from_str("new slot"),
        CardAddress::Value(_) => {
            let mut title = display_address(card.address());
            push_text(&mut title, " [");
            if card.owned_slot().is_some() {
                push_text(&mut title, "owned");
            } else {
                push_text(&mut title, "projection");
            }
            push_text(&mut title, "]");
            title
        },
    }
}

/// How many cards fit along `main_axis` cells when each takes `breadth`
/// cells: at least one.
pub open spec fn card_capacity(main_axis: u16, breadth: u16) -> nat {
    let b = if breadth == 0 { 1 } else { breadth as nat };
    let c = main_axis as nat / b;
    if c == 0 { 1 } else { c }
}

/// Index of the first card at `address`.
pub open spec fn first_card_at(cards: Seq<CardView>, address: CardAddressView) -> Option<nat>
    decreases cards.len(),
{
    if cards.len() == 0 {
        None
    } else {
        match first_card_at(cards.drop_last(), address) {
            Some(index) => Some(index),
            None => if cards.last().address == address {
                Some((cards.len() - 1) as nat)
            } else {
                None
            },
        }
    }
}

/// The cards drawn (indices into the window) and the index of the first:
/// the selected card alone when it fills the area; every card when all
/// fit; else `capacity` consecutive cards, scrolled just enough to show
/// the selected one.
pub open spec fn visible_indices(
    cards: Seq<CardView>,
    selected: CardAddressView,
    fill: bool,
    capacity: nat,
) -> (Seq<usize>, usize) {
    if fill {
        match first_card_at(cards, selected) {
            Some(index) => (seq![index as usize], 0),
            None => (Seq::empty(), 0),
        }
    } else if cards.len() <= capacity {
        (Seq::new(cards.len(), |k: int| k as usize), 0)
    } else {
        let wanted = match first_card_at(cards, selected) {
            Some(index) => if index >= capacity - 1 {
                (index - (capacity - 1)) as nat
            } else {
                0
            },
            None => 0,
        };
        let start = if wanted > cards.len() - capacity {
            (cards.len() - capacity) as nat
        } else {
            wanted
        };
        (Seq::new(capacity, |k: int| (start + k) as usize), start as usize)
    }
}

proof fn lemma_first_card_bound(cards: Seq<CardView>, address: CardAddressView)
    ensures
        first_card_at(cards, address) matches Some(index) ==> index < cards.len()
            && cards[index as int].address == address,
    decreases cards.len(),
{
    if cards.len() > 0 {
        lemma_first_card_bound(cards.drop_last(), address);
    }
}

proof fn lemma_first_card_prefix(cards: Seq<CardView>, address: CardAddressView, n: int)
    requires
        0 <= n <= cards.len(),
        first_card_at(cards.take(n), address) is Some,
    ensures
        first_card_at(cards, address) == first_card_at(cards.take(n), address),
    decreases cards.len() - n,
{
    if n < cards.len() {
        assert(cards.take(n + 1).drop_last() =~= cards.take(n));
        lemma_first_card_prefix(cards, address, n + 1);
    } else {
        assert(cards.take(n) =~= cards);
    }
}

/// Where the card scrollbar stands: how many scroll positions there are,
/// the current one, and how many cards the viewport shows.
#[derive(Clone, Copy, Debug, PartialEq, Eq, Structural)]
pub struct ScrollbarPlan {
    pub content_length: usize,
    pub position: usize,
    pub viewport: usize,
}

/// One line of a drawn card, naming the row (by index) it shows.
#[derive(Clone, Copy, Debug, PartialEq, Eq, Structural)]
pub enum CardLine {
    /// The create-object line of the new-slot card.
    NewSlot { selected: bool },
    /// "type T" above a row that has a type label but no value display.
    Type { row: usize, accent: Tone },
    /// "label: T" of a row shown with its value display below it.
    TypedRow { row: usize, selected: bool, accent: Tone },
    /// The value display of the row above.
    ValueDisplay { row: usize, selected: bool, tone: Tone },
    /// "label: content".
    Row { row: usize, selected: bool, accent: Tone },
    /// Shown when a search left no row of the selected card visible.
    NoMatchingRows,
    /// Shown when the card's relationships were cut short.
    MoreRelationships,
}

/// The lines of a card, the line to keep in view and the line of the
/// selected row.
pub struct CardLines {
    pub lines: Vec<CardLine>,
    pub focused_line: Option<usize>,
    pub selected_line: Option<usize>,
}

pub open spec fn field_group_tone_spec(index: nat) -> Tone {
    if index % 4 == 0 {
        Tone::Blue
    } else if index % 4 == 1 {
        Tone::Green
    } else if index % 4 == 2 {
        Tone::Yellow
    } else {
        Tone::Magenta
    }
}

/// Lines of the card's rows so far, the focused and selected line, and how
/// many relationship rows have been drawn.
pub struct LinesState {
    pub lines: Seq<CardLine>,
    pub focused: Option<nat>,
    pub selected: Option<nat>,
    pub relationships: nat,
}

/// The lines drawn for the first `rows.len()` rows of a card.
pub open spec fn row_lines(
    rows: Seq<RowView>,
    card_selected: bool,
    selected_row: Option<RowKeyView>,
    visible: Option<Seq<RowKeyView>>,
) -> LinesState
    decreases rows.len(),
{
    if rows.len() == 0 {
        LinesState { lines: Seq::empty(), focused: None, selected: None, relationships: 0 }
    } else {
        let before = row_lines(rows.drop_last(), card_selected, selected_row, visible);
        let k = (rows.len() - 1) as usize;
        let row = rows.last();
        let hidden = card_selected && match visible {
            Some(keys) => !keys.contains(row.key@),
            None => false,
        };
        if hidden {
            before
        } else {
            let relationship = is_relationship(row.key@);
            let accent = if relationship {
                Some(field_group_tone_spec(before.relationships))
            } else {
                None
            };
            let relationships = if relationship {
                before.relationships + 1
            } else {
                before.relationships
            };
            let white = match accent {
                Some(tone) => tone,
                None => Tone::White,
            };
            let row_selected = card_selected && selected_row == Some(row.key@);
            if row.type_label is Some && row.value_display is Some {
                let lines = before.lines.push(
                    CardLine::TypedRow { row: k, selected: row_selected, accent: white },
                ).push(
                    CardLine::ValueDisplay {
                        row: k,
                        selected: row_selected,
                        tone: match accent {
                            Some(tone) => tone,
                            None => Tone::Green,
                        },
                    },
                );
                LinesState {
                    lines,
                    focused: if row_selected {
                        Some((lines.len() - 1) as nat)
                    } else {
                        before.focused
                    },
                    selected: if row_selected {
                        Some(before.lines.len())
                    } else {
                        before.selected
                    },
                    relationships,
                }
            } else {
                let typed = if row.type_label is Some {
                    before.lines.push(CardLine::Type { row: k, accent: white })
                } else {
                    before.lines
                };
                LinesState {
                    lines: typed.push(CardLine::Row { row: k, selected: row_selected, accent: white }),
                    focused: if row_selected {
                        Some(typed.len())
                    } else {
                        before.focused
                    },
                    selected: if row_selected {
                        Some(typed.len())
                    } else {
                        before.selected
                    },
                    relationships,
                }
            }
        }
    }
}

/// All lines of a card.
pub open spec fn card_lines_spec(
    card: CardView,
    card_selected: bool,
    selected_row: Option<RowKeyView>,
    visible: Option<Seq<RowKeyView>>,
) -> (Seq<CardLine>, Option<nat>, Option<nat>) {
    if card.address is NewSlot {
        (seq![CardLine::NewSlot { selected: card_selected }], None, None)
    } else {
        let state = row_lines(card.rows, card_selected, selected_row, visible);
        let with_empty = if state.lines.len() == 0 && visible is Some {
            state.lines.push(CardLine::NoMatchingRows)
        } else {
            state.lines
        };
        let all = if !card.relationships_complete {
            with_empty.push(CardLine::MoreRelationships)
        } else {
            with_empty
        };
        (all, state.focused, state.selected)
    }
}

pub open spec fn option_usize(value: Option<usize>) -> Option<nat> {
    match value {
        Some(v) => Some(v as nat),
        None => None,
    }
}

/// How far a card's lines scroll so that the focused line is the last
/// visible one (or not at all), never past the end.
pub open spec fn scroll_offset_spec(line_count: nat, viewport: nat, focused: Option<nat>) -> nat {
    let wanted = match focused {
        Some(line) => if line + 1 >= viewport && viewport > 0 {
            (line + 1 - viewport) as nat
        } else if viewport == 0 {
            line
        } else {
            0
        },
        None => 0,
    };
    let max_offset = if line_count > viewport { (line_count - viewport) as nat } else { 0 };
    if wanted > max_offset { max_offset } else { wanted }
}

pub fn scroll_offset(line_count: usize, viewport: usize, focused: Option<usize>) -> (offset: usize)
    ensures
        offset == scroll_offset_spec(line_count as nat, viewport as nat, option_usize(focused)),
{
    let wanted = match focused {
        Some(line) => line.saturating_sub(viewport.saturating_sub(1)),
        None => 0,
    };
    let max_offset = line_count.saturating_sub(viewport);
    if wanted > max_offset { max_offset } else { wanted }
}

/// Row of the viewport where the selection marker goes, when the selected
/// line of the selected card is in view.
pub fn marker_row(card_selected: bool, selected_line: Option<usize>, offset: usize, viewport: usize) -> (row: Option<usize>)
    ensures
        row == (match selected_line {
            Some(line) => if card_selected && line >= offset && line - offset < viewport {
                Some((line - offset) as usize)
            } else {
                None
            },
            None => None,
        }),
{
    match selected_line {
        Some(line) => if card_selected && line >= offset && line - offset < viewport {
            Some(line - offset)
        } else {
            None
        },
        None => None,
    }
}

/// The scrollbar inside the selected card, when its lines overflow.
pub fn row_scrollbar(card_selected: bool, line_count: usize, viewport: usize, offset: usize) -> (plan: Option<ScrollbarPlan>)
    ensures
        plan == (if card_selected && viewport > 0 && line_count > viewport {
            Some(ScrollbarPlan {
                content_length: (line_count - viewport + 1) as usize,
                position: offset,
                viewport,
            })
        } else {
            None
        }),
{
    if card_selected && viewport > 0 && line_count > viewport {
        Some(ScrollbarPlan { content_length: line_count - viewport + 1, position: offset, viewport })
    } else {
        None
    }
}

pub open spec fn key_option_view(key: Option<&CardRowKey>) -> Option<RowKeyView> {
    match key {
        Some(k) => Some(k@),
        None => None,
    }
}

pub open spec fn keys_view(keys: Seq<CardRowKey>) -> Seq<RowKeyView> {
    keys.map_values(|k: CardRowKey| k@)
}

pub open spec fn visible_view(visible: Option<&[CardRowKey]>) -> Option<Seq<RowKeyView>> {
    match visible {
        Some(keys) => Some(keys_view(keys@)),
        None => None,
    }
}

fn keys_contain(keys: &[CardRowKey], key: &CardRowKey) -> (found: bool)
    ensures
        found == keys_view(keys@).contains(key@),
{
    let mut i: usize = 0;
    while i < keys.len()
        invariant
            i <= keys@.len(),
            forall|j: int| 0 <= j < i ==> keys@[j]@ != key@,
        decreases keys.len() - i,
    {
        if keys[i].same_as(key) {
            assert(keys_view(keys@)[i as int] == key@);
            return true;
        }
        i = i + 1;
    }
    proof {
        if keys_view(keys@).contains(key@) {
            let j = choose|j: int| 0 <= j < keys_view(keys@).len() && keys_view(keys@)[j] == key@;
            assert(keys@[j]@ == key@);
        }
    }
    false
}

impl<'window> CardWindowRenderer<'window> {
    /// Whether the card scrollbar is drawn below cards laid out across an
    /// area `area_height` cells high.
    pub fn show_card_scrollbar(&self, area_height: u16) -> (show: bool)
        ensures
            show == (self.axis == CardLayoutAxis::Horizontal && !self.focused_card_fill && (
            self.window@.has_before || self.window@.has_after) && area_height >= 2),
    {
        self.axis == CardLayoutAxis::Horizontal && !self.focused_card_fill && (
        self.window.has_before() || self.window.has_after()) && area_height >= 2
    }

    /// The cards drawn along `main_axis` cells, as indices into the window,
    /// and the index of the first.
    pub fn visible_cards(&self, main_axis: u16) -> (shown: (Vec<usize>, usize))
        ensures
            (shown.0@, shown.1) == visible_indices(
                self.window@.cards,
                self.selected_card@,
                self.focused_card_fill,
                card_capacity(main_axis, self.card_breadth),
            ),
    {
        let cards = self.window.cards();
        let ghost cv = self.window@.cards;
        let mut found: Option<usize> = None;
        let mut i: usize = 0;
        assert(cv.take(cards@.len() as int) =~= cv);
        while i < cards.len()
            invariant_except_break
                found is None,
            invariant
                cards_view(cards@) == cv,
                cv.take(cards@.len() as int) == cv,
                i <= cards@.len(),
                first_card_at(cv.take(i as int), self.selected_card@) is None,
            ensures
                found matches Some(index) ==> first_card_at(cv, self.selected_card@) == Some(index as nat),
                found is None ==> first_card_at(cv, self.selected_card@) is None,
            decreases cards.len() - i,
        {
            assert(cv.take(i + 1).drop_last() =~= cv.take(i as int));
            if cards[i].address().same_as(self.selected_card) {
                assert(cv[i as int] == cards@[i as int]@);
                assert(cv.take(i + 1).last() == cv[i as int]);
                proof {
                    lemma_first_card_prefix(cv, self.selected_card@, i + 1);
                }
                found = Some(i);
                break;
            }
            i = i + 1;
        }
        proof {
            lemma_first_card_bound(cv, self.selected_card@);
        }
        if self.focused_card_fill {
            let mut shown: Vec<usize> = Vec::new();
            if let Some(index) = found {
                shown.push(index);
                assert(shown@ =~= seq![index]);
            }
            return (shown, 0);
        }
        let breadth: usize = if self.card_breadth == 0 { 1 } else { self.card_breadth as usize };
        let fitted: usize = main_axis as usize / breadth;
        let capacity: usize = if fitted == 0 { 1 } else { fitted };
        let count = cards.len();
        if count <= capacity {
            let mut shown: Vec<usize> = Vec::new();
            let mut k: usize = 0;
            while k < count
                invariant
                    k <= count,
                    shown@ == Seq::new(k as nat, |j: int| j as usize),
                decreases count - k,
            {
                shown.push(k);
                k = k + 1;
                assert(shown@ =~= Seq::new(k as nat, |j: int| j as usize));
            }
            return (shown, 0);
        }
        let wanted = match found {
            Some(index) => if index >= capacity - 1 { index - (capacity - 1) } else { 0 },
            None => 0,
        };
        let start = if wanted > count - capacity { count - capacity } else { wanted };
        let mut shown: Vec<usize> = Vec::new();
        let mut k: usize = 0;
        while k < capacity
            invariant
                k <= capacity,
                start + capacity <= count,
                shown@ == Seq::new(k as nat, |j: int| (start + j) as usize),
            decreases capacity - k,
        {
            shown.push(start + k);
            k = k + 1;
            assert(shown@ =~= Seq::new(k as nat, |j: int| (start + j) as usize));
        }
        (shown, start)
    }
}

/// The card scrollbar for the cards `visible` (indices into the window),
/// the first being the `visible_start`-th of the window: the position is
/// the first drawn card's ordinal; the total is the exact or scanned query
/// total (the create-object card counted when drawn), never less than what
/// the window shows.
pub open spec fn card_scrollbar_spec(
    window: crate::explorer::card::WindowView,
    total: QueryTotal,
    visible: Seq<usize>,
    visible_start: usize,
) -> ScrollbarPlan {
    let count = visible.len() as usize;
    let position = window.start_ordinal.saturating_add(visible_start);
    let has_new_slot = exists|k: int|
        0 <= k < visible.len() && (#[trigger] window.cards[visible[k] as int]).address is NewSlot;
    let minimum = position.saturating_add(count).saturating_add(if window.has_after { 1usize } else { 0usize });
    let reported = match total {
        QueryTotal::Exact(exact) => exact.saturating_add(if has_new_slot { 1usize } else { 0usize }),
        QueryTotal::Scanning(progress) => progress.matched,
        QueryTotal::Unknown => 0usize,
    };
    let total_items = if reported > minimum { reported } else { minimum };
    ScrollbarPlan {
        content_length: total_items.saturating_sub(count).saturating_add(1),
        position,
        viewport: count,
    }
}

impl<'window> CardWindowRenderer<'window> {
    /// Where the card scrollbar stands when the cards `visible` are drawn.
    pub fn card_scrollbar(&self, visible: &Vec<usize>, visible_start: usize) -> (plan: ScrollbarPlan)
        requires
            forall|k: int| 0 <= k < visible@.len() ==> #[trigger] visible@[k] < self.window@.cards.len(),
        ensures
            plan == card_scrollbar_spec(self.window@, self.query_total, visible@, visible_start),
    {
        let cards = self.window.cards();
        let ghost cv = self.window@.cards;
        let mut has_new_slot = false;
        let mut k: usize = 0;
        while k < visible.len()
            invariant
                cards_view(cards@) == cv,
                cv == self.window@.cards,
                forall|j: int| 0 <= j < visible@.len() ==> #[trigger] visible@[j] < cv.len(),
                k <= visible@.len(),
                has_new_slot == exists|j: int|
                    0 <= j < k && (#[trigger] cv[visible@[j] as int]).address is NewSlot,
            decreases visible.len() - k,
        {
            let index = visible[k];
            assert(cv[index as int] == cards@[index as int]@);
            if let CardAddress::NewSlot = cards[index].address() {
                has_new_slot = true;
            }
            k = k + 1;
        }
        let count = visible.len();
        let position = self.window.start_ordinal().saturating_add(visible_start);
        let after: usize = if self.window.has_after() { 1 } else { 0 };
        let minimum = position.saturating_add(count).saturating_add(after);
        let reported: usize = match self.query_total {
            QueryTotal::Exact(exact) => exact.saturating_add(if has_new_slot { 1 } else { 0 }),
            QueryTotal::Scanning(progress) => progress.matched,
            QueryTotal::Unknown => 0,
        };
        let total_items = if reported > minimum { reported } else { minimum };
        ScrollbarPlan {
            content_length: total_items.saturating_sub(count).saturating_add(1),
            position,
            viewport: count,
        }
    }

    /// The lines of `card` as this render draws it.
    pub fn card_lines(&self, card: &CardSnapshot) -> (plan: CardLines)
        ensures
            (plan.lines@, option_usize(plan.focused_line), option_usize(plan.selected_line))
                == card_lines_spec(
                card@,
                card@.address == self.selected_card@,
                key_option_view(self.selected_row),
                visible_view(self.visible_rows),
            ),
    {
        let card_selected = card.address().same_as(self.selected_card);
        if let CardAddress::NewSlot = card.address() {
            let mut lines: Vec<CardLine> = Vec::new();
            lines.push(CardLine::NewSlot { selected: card_selected });
            assert(lines@ =~= seq![CardLine::NewSlot { selected: card_selected }]);
            return CardLines { lines, focused_line: None, selected_line: None };
        }
        let ghost selected_row = key_option_view(self.selected_row);
        let ghost visible = visible_view(self.visible_rows);
        let rows = card.rows();
        let ghost rv = card@.rows;
        let mut lines: Vec<CardLine> = Vec::new();
        let mut focused: Option<usize> = None;
        let mut selected: Option<usize> = None;
        let mut relationships: usize = 0;
        let mut i: usize = 0;
        while i < rows.len()
            invariant
                rows_view(rows@) == rv,
                i <= rows@.len(),
                selected_row == key_option_view(self.selected_row),
                visible == visible_view(self.visible_rows),
                relationships <= i,
                lines@.len() <= 2 * i,
                ({
                    let state = row_lines(rv.take(i as int), card_selected, selected_row, visible);
                    &&& lines@ == state.lines
                    &&& option_usize(focused) == state.focused
                    &&& option_usize(selected) == state.selected
                    &&& relationships == state.relationships
                }),
            decreases rows.len() - i,
        {
            assert(rv.take(i + 1).drop_last() =~= rv.take(i as int));
            assert(rv[i as int] == rows@[i as int]@);
            let row = &rows[i];
            let hidden = card_selected && match self.visible_rows {
                Some(keys) => !keys_contain(keys, row.key()),
                None => false,
            };
            if !hidden {
                let relationship = is_relationship_key(row.key());
                let accent: Option<Tone> = if relationship {
                    let tone = field_group_tone(relationships);
                    relationships = relationships + 1;
                    Some(tone)
                } else {
                    None
                };
                let white = match accent {
                    Some(tone) => tone,
                    None => Tone::White,
                };
                let row_selected = card_selected && match self.selected_row {
                    Some(key) => key.same_as(row.key()),
                    None => false,
                };
                if row.type_label().is_some() && row.value_display().is_some() {
                    if row_selected {
                        selected = Some(lines.len());
                    }
                    lines.push(CardLine::TypedRow { row: i, selected: row_selected, accent: white });
                    lines.push(
                        CardLine::ValueDisplay {
                            row: i,
                            selected: row_selected,
                            tone: match accent {
                                Some(tone) => tone,
                                None => Tone::Green,
                            },
                        },
                    );
                    if row_selected {
                        focused = Some(lines.len() - 1);
                    }
                } else {
                    if row.type_label().is_some() {
                        lines.push(CardLine::Type { row: i, accent: white });
                    }
                    if row_selected {
                        selected = Some(lines.len());
                        focused = Some(lines.len());
                    }
                    lines.push(CardLine::Row { row: i, selected: row_selected, accent: white });
                }
            }
            i = i + 1;
        }
        assert(rv.take(rows@.len() as int) =~= rv);
        if lines.len() == 0 && self.visible_rows.is_some() {
            lines.push(CardLine::NoMatchingRows);
        }
        if !card.relationships_complete() {
            lines.push(CardLine::MoreRelationships);
        }
        CardLines { lines, focused_line: focused, selected_line: selected }
    }
}


/// Unless the selected card fills the area, a selected card that is in the
/// window is among the cards drawn, and at most `capacity` cards are drawn.
pub proof fn law_selected_card_is_drawn(cards: Seq<CardView>, selected: CardAddressView, capacity: nat)
    requires
        capacity >= 1,
        cards.len() <= usize::MAX,
        first_card_at(cards, selected) is Some,
    ensures
        ({
            let (shown, start) = visible_indices(cards, selected, false, capacity);
            &&& shown.len() <= capacity
            &&& exists|k: int| 0 <= k < shown.len() && shown[k] as nat == first_card_at(cards, selected)->0
        }),
{
    lemma_first_card_bound(cards, selected);
    let index = first_card_at(cards, selected)->0;
    let (shown, start) = visible_indices(cards, selected, false, capacity);
    if cards.len() <= capacity {
        assert(shown[index as int] as nat == index);
    } else {
        let k = index - start;
        assert(0 <= k < shown.len());
        assert(shown[k] as nat == index);
    }
}

/// After scrolling, the focused line of a card is in view.
pub proof fn law_focused_line_is_in_view(line_count: nat, viewport: nat, focused: nat)
    requires
        focused < line_count,
        viewport > 0,
    ensures
        scroll_offset_spec(line_count, viewport, Some(focused)) <= focused < scroll_offset_spec(
            line_count,
            viewport,
            Some(focused),
        ) + viewport,
{
}

} // verus!
