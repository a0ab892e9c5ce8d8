//! Which row of the selected card holds the focus: moving it up and down,
//! jumping to either end, and choosing the next input a building root still
//! needs.
use vstd::prelude::*;
use crate::explorer::builder::{BuilderFieldView, BuilderKindSnapshot, BuilderSnapshot, fields_view};
use crate::explorer::card::{CardRowKey, CardRowSnapshot, RowKeyView, RowView, rows_view};
use crate::explorer::card_address::{CardAddress, CardAddressView};
use crate::explorer::card::{CardSnapshot, CardView, cards_view};

verus! {

/// Whether `i` is the first row whose key is `key`.
pub open spec fn is_first_row(rows: Seq<RowView>, key: RowKeyView, i: int) -> bool {
    &&& 0 <= i < rows.len()
    &&& rows[i].key@ == key
    &&& forall|j: int| 0 <= j < i ==> rows[j].key@ != key
}

/// Position of the focused row among `rows`, if it is one of them.
pub open spec fn focused_position(rows: Seq<RowView>, focused: Option<RowKeyView>) -> Option<int> {
    match focused {
        Some(key) => if exists|i: int| is_first_row(rows, key, i) {
            Some(choose|i: int| is_first_row(rows, key, i))
        } else {
            None
        },
        None => None,
    }
}

/// Where an Up or Down press moves the row focus.
#[derive(Clone, Copy, Debug, PartialEq, Eq, Structural)]
pub enum RowMove {
    /// Up from the first row (or from no row): the breadcrumb bar takes the focus.
    ToBreadcrumbBar,
    /// The card has no rows: no row is focused.
    Clear,
    /// Focus the row at this position.
    Focus(usize),
}

/// Down moves one row further (staying on the last), or to the first row
/// when none is focused; Up moves one row back, or to the breadcrumb bar
/// from the first row, from no row, or on a card without rows.
pub open spec fn row_move_spec(rows: Seq<RowView>, focused: Option<RowKeyView>, next: bool) -> RowMove {
    let current = focused_position(rows, focused);
    if !next && (rows.len() == 0 || current is None || current == Some(0int)) {
        RowMove::ToBreadcrumbBar
    } else if rows.len() == 0 {
        RowMove::Clear
    } else {
        match current {
            Some(i) => if next {
                RowMove::Focus(if i + 1 < rows.len() { (i + 1) as usize } else { (rows.len() - 1) as usize })
            } else {
                RowMove::Focus((i - 1) as usize)
            },
            None => RowMove::Focus(if next { 0 } else { (rows.len() - 1) as usize }),
        }
    }
}

fn find_row(rows: &[CardRowSnapshot], key: &CardRowKey) -> (found: Option<usize>)
    ensures
        found matches Some(i) ==> is_first_row(rows_view(rows@), key@, i as int),
        found is None ==> !(exists|i: int| is_first_row(rows_view(rows@), key@, i)),
{
    let ghost view = rows_view(rows@);
    let mut i: usize = 0;
    while i < rows.len()
        invariant
            i <= rows.len(),
            view == rows_view(rows@),
            forall|j: int| 0 <= j < i ==> view[j].key@ != key@,
        decreases rows.len() - i,
    {
        if rows[i].key().same_as(key) {
            assert(view[i as int].key@ == key@);
            return Some(i);
        }
        i = i + 1;
    }
    None
}

proof fn lemma_first_row_unique(rows: Seq<RowView>, key: RowKeyView, i: int)
    requires
        is_first_row(rows, key, i),
    ensures
        (choose|k: int| is_first_row(rows, key, k)) == i,
{
    let c = choose|k: int| is_first_row(rows, key, k);
    assert(is_first_row(rows, key, c));
    if c < i {
        assert(rows[c].key@ != key);
    } else if i < c {
        assert(rows[i].key@ != key);
    }
}

pub(crate) fn focused_index(rows: &[CardRowSnapshot], focused: Option<&CardRowKey>) -> (position: Option<usize>)
    ensures
        match position {
            Some(i) => focused_position(rows_view(rows@), match focused {
                Some(k) => Some(k@),
                None => None,
            }) == Some(i as int),
            None => focused_position(rows_view(rows@), match focused {
                Some(k) => Some(k@),
                None => None,
            }) is None,
        },
{
    match focused {
        Some(key) => {
            let found = find_row(rows, key);
            proof {
                if let Some(i) = found {
                    lemma_first_row_unique(rows_view(rows@), key@, i as int);
                }
            }
            found
        },
        None => None,
    }
}

/// Where Down (`next`) or Up moves the row focus on a card with `rows`.
pub fn row_move(rows: &[CardRowSnapshot], focused: Option<&CardRowKey>, next: bool) -> (step: RowMove)
    ensures
        step == row_move_spec(
            rows_view(rows@),
            match focused {
                Some(k) => Some(k@),
                None => None,
            },
            next,
        ),
        ({
            let position = focused_position(rows_view(rows@), match focused {
                Some(k) => Some(k@),
                None => None,
            });
            &&& next && rows@.len() > 0 ==> (step matches RowMove::Focus(q) && q < rows@.len() && match position {
                Some(p) => q >= p && (p + 1 < rows@.len() ==> q == p + 1),
                None => q == 0,
            })
            &&& next && rows@.len() == 0 ==> step == RowMove::Clear
            &&& !next && (position matches Some(p) && p > 0) ==> step == RowMove::Focus(
                (position.unwrap() - 1) as usize,
            )
            &&& !next && !(position matches Some(p) && p > 0) ==> step == RowMove::ToBreadcrumbBar
        }),
{
    let current = focused_index(rows, focused);
    let at_top = match current {
        Some(i) => i == 0,
        None => true,
    };
    if !next && (rows.len() == 0 || at_top) {
        return RowMove::ToBreadcrumbBar;
    }
    if rows.len() == 0 {
        return RowMove::Clear;
    }
    let last = rows.len() - 1;
    match current {
        Some(i) => if next {
            RowMove::Focus(if i < last { i + 1 } else { last })
        } else {
            RowMove::Focus(i - 1)
        },
        None => RowMove::Focus(if next { 0 } else { last }),
    }
}

/// Home and End: the first or the last row, none on a card without rows.
pub fn row_edge(rows: &[CardRowSnapshot], first: bool) -> (position: Option<usize>)
    ensures
        rows@.len() == 0 ==> position is None,
        rows@.len() > 0 ==> position == Some(if first { 0 } else { (rows@.len() - 1) as usize }),
{
    if rows.len() == 0 {
        None
    } else if first {
        Some(0)
    } else {
        Some(rows.len() - 1)
    }
}

/// The next input a building root still needs: its shape, then the variant
/// of an enum, the value of a scalar, or else the first unset field.
pub open spec fn next_input_spec(kind: BuilderKindSnapshot, fields: Seq<BuilderFieldView>) -> Option<RowKeyView> {
    match kind {
        BuilderKindSnapshot::ShapeUnset => Some(RowKeyView::Shape),
        BuilderKindSnapshot::Enum { selected_variant: None, .. } => Some(RowKeyView::Variant),
        BuilderKindSnapshot::Scalar { value_is_set: false } => Some(RowKeyView::Value),
        _ => if exists|i: int| is_first_unset(fields, i) {
            Some(RowKeyView::Field(fields[choose|i: int| is_first_unset(fields, i)].name))
        } else {
            None
        },
    }
}

pub open spec fn is_first_unset(fields: Seq<BuilderFieldView>, i: int) -> bool {
    &&& 0 <= i < fields.len()
    &&& fields[i].binding is Unset
    &&& forall|j: int| 0 <= j < i ==> !(fields[j].binding is Unset)
}

/// The row to focus next on a building root described by `builder`.
pub fn next_builder_input(builder: &BuilderSnapshot) -> (key: Option<CardRowKey>)
    ensures
        match key {
            Some(k) => next_input_spec(builder.kind_view(), builder.fields_spec()) == Some(k@),
            None => next_input_spec(builder.kind_view(), builder.fields_spec()) is None,
        },
{
    match builder.kind() {
        BuilderKindSnapshot::ShapeUnset => return Some(CardRowKey::Shape),
        BuilderKindSnapshot::Enum { selected_variant: None, .. } => return Some(CardRowKey::Variant),
        BuilderKindSnapshot::Scalar { value_is_set: false } => return Some(CardRowKey::Value),
        _ => {},
    }
    let fields = builder.fields();
    let ghost view = fields_view(fields@);
    let mut i: usize = 0;
    while i < fields.len()
        invariant
            i <= fields.len(),
            view == fields_view(fields@),
            view == builder.fields_spec(),
            forall|j: int| 0 <= j < i ==> !(view[j].binding is Unset),
            match builder.kind_view() {
                BuilderKindSnapshot::ShapeUnset => false,
                BuilderKindSnapshot::Enum { selected_variant: None, .. } => false,
                BuilderKindSnapshot::Scalar { value_is_set: false } => false,
                _ => true,
            },
        decreases fields.len() - i,
    {
        let unset = match fields[i].binding() {
            crate::explorer::card::FieldBindingSnapshot::Unset => true,
            _ => false,
        };
        if unset {
            proof {
                assert(view[i as int] == fields@[i as int]@);
                assert(is_first_unset(view, i as int));
                let c = choose|k: int| is_first_unset(view, k);
                assert(is_first_unset(view, c));
                if c < i {
                    assert(!(view[c].binding is Unset));
                } else if i < c {
                    assert(!(view[i as int].binding is Unset));
                }
            }
            return Some(CardRowKey::Field(String::from_str(fields[i].name())));
        }
        i = i + 1;
    }
    None
}

/// After a builder step: a root that became a ready value keeps its shape
/// row focused; a root still building moves to its next needed input.
pub fn focus_after_builder_step(became_ready: bool, builder: Option<&BuilderSnapshot>) -> (key: Option<
    CardRowKey,
>)
    ensures
        became_ready ==> key == Some(CardRowKey::Shape),
        !became_ready ==> match builder {
            Some(b) => match key {
                Some(k) => next_input_spec(b.kind_view(), b.fields_spec()) == Some(k@),
                None => next_input_spec(b.kind_view(), b.fields_spec()) is None,
            },
            None => key is None,
        },
{
    if became_ready {
        Some(CardRowKey::Shape)
    } else {
        match builder {
            Some(builder) => next_builder_input(builder),
            None => None,
        }
    }
}

/// The card on screen for `selection`: the root card at hand when it is the
/// selected one, else the first card of the window with that address.
pub open spec fn selected_card_spec(
    selection: CardAddressView,
    root_card: Option<CardView>,
    window: Seq<CardView>,
) -> Option<CardView> {
    if root_card matches Some(card) && card.address == selection {
        root_card
    } else if exists|i: int| is_first_card(window, selection, i) {
        Some(window[choose|i: int| is_first_card(window, selection, i)])
    } else {
        None
    }
}

pub open spec fn is_first_card(cards: Seq<CardView>, address: CardAddressView, i: int) -> bool {
    &&& 0 <= i < cards.len()
    &&& cards[i].address == address
    &&& forall|j: int| 0 <= j < i ==> cards[j].address != address
}

pub fn selected_card<'a>(
    selection: &CardAddress,
    root_card: Option<&'a CardSnapshot>,
    window: &'a [CardSnapshot],
) -> (card: Option<&'a CardSnapshot>)
    ensures
        match card {
            Some(c) => selected_card_spec(selection@, match root_card {
                Some(r) => Some(r@),
                None => None,
            }, cards_view(window@)) == Some(c@),
            None => selected_card_spec(selection@, match root_card {
                Some(r) => Some(r@),
                None => None,
            }, cards_view(window@)) is None,
        },
{
    if let Some(card) = root_card {
        if card.address().same_as(selection) {
            return Some(card);
        }
    }
    let ghost view = cards_view(window@);
    let ghost rc: Option<CardView> = match root_card {
        Some(r) => Some(r@),
        None => None,
    };
    let mut i: usize = 0;
    while i < window.len()
        invariant
            i <= window.len(),
            view == cards_view(window@),
            !(rc matches Some(card) && card.address == selection@),
            rc == (match root_card {
                Some(r) => Some(r@),
                None => None::<CardView>,
            }),
            forall|j: int| 0 <= j < i ==> view[j].address != selection@,
        decreases window.len() - i,
    {
        if window[i].address().same_as(selection) {
            proof {
                assert(view[i as int] == window@[i as int]@);
                assert(is_first_card(view, selection@, i as int));
                let c = choose|k: int| is_first_card(view, selection@, k);
                assert(is_first_card(view, selection@, c));
                if c < i {
                    assert(view[c].address != selection@);
                } else if i < c {
                    assert(view[i as int].address != selection@);
                }
                assert(selected_card_spec(selection@, rc, view) == Some(view[i as int]));
            }
            return Some(&window[i]);
        }
        i = i + 1;
    }
    None
}

} // verus!
