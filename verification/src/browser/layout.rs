//! Viewport arithmetic of the browser: which slice of a list is visible and
//! how card sizes change when the user grows or shrinks them.
use vstd::prelude::*;
use crate::browser::bar_focus::BreadcrumbBarFocus;
use crate::browser::renderer::CardLayoutAxis;
use crate::explorer::breadcrumb::strings_view;
use crate::text::{decimal, push_char, push_decimal, push_text};

verus! {

pub open spec fn window_start_spec(selected: nat, count: nat, capacity: nat) -> nat {
    if capacity == 0 || count <= capacity {
        0
    } else {
        let centered = if selected >= capacity / 2 {
            (selected - capacity / 2) as nat
        } else {
            0nat
        };
        let last_start = (count - capacity) as nat;
        if centered < last_start {
            centered
        } else {
            last_start
        }
    }
}

/// First visible index of a list of `count` items shown `capacity` at a
/// time, keeping `selected` near the middle and never scrolling past the end.
pub fn window_start(selected: usize, count: usize, capacity: usize) -> (start: usize)
    ensures
        start == window_start_spec(selected as nat, count as nat, capacity as nat),
{
    if capacity == 0 || count <= capacity {
        0
    } else {
        let centered = if selected >= capacity / 2 {
            selected - capacity / 2
        } else {
            0
        };
        let last_start = count - capacity;
        if centered < last_start {
            centered
        } else {
            last_start
        }
    }
}

/// Law: a selected item of the list is always inside the visible window,
/// and the window never runs past the end of the list.
pub proof fn law_selected_item_is_visible(selected: nat, count: nat, capacity: nat)
    requires
        selected < count,
        capacity > 0,
    ensures
        window_start_spec(selected, count, capacity) <= selected,
        selected < window_start_spec(selected, count, capacity) + capacity,
        count > capacity ==> window_start_spec(selected, count, capacity) + capacity <= count,
{
}

pub open spec fn resize_dimension_spec(current: nat, minimum: nat, direction: int) -> nat {
    let moved = if direction < 0 {
        if current == 0 {
            0nat
        } else {
            (current - 1) as nat
        }
    } else {
        if current == u16::MAX {
            current
        } else {
            current + 1
        }
    };
    if moved < minimum {
        minimum
    } else {
        moved
    }
}

/// Grows (`direction >= 0`) or shrinks one card dimension by one cell,
/// never below `minimum`.
pub fn resize_dimension(current: u16, minimum: u16, direction: isize) -> (size: u16)
    ensures
        size == resize_dimension_spec(current as nat, minimum as nat, direction as int),
        size >= minimum,
        direction < 0 ==> size <= (if current >= minimum { current } else { minimum }),
        direction < 0 && current > minimum ==> size + 1 == current,
        direction >= 0 ==> size >= current,
        direction >= 0 && current < u16::MAX && current >= minimum ==> size == current + 1,
{
    let moved = if direction < 0 {
        if current == 0 {
            0
        } else {
            current - 1
        }
    } else {
        if current == u16::MAX {
            current
        } else {
            current + 1
        }
    };
    if moved < minimum {
        minimum
    } else {
        moved
    }
}

pub open spec fn resize_card_breadth_spec(
    current: nat,
    minimum: nat,
    main_axis_extent: nat,
    direction: int,
) -> nat {
    if main_axis_extent == 0 {
        resize_dimension_spec(current, minimum, direction)
    } else {
        let breadth = if current == 0 {
            1nat
        } else {
            current
        };
        let visible = if main_axis_extent / breadth == 0 {
            1nat
        } else {
            main_axis_extent / breadth
        };
        let target = if direction < 0 {
            if visible == u16::MAX {
                visible
            } else {
                visible + 1
            }
        } else {
            if visible <= 1 {
                1nat
            } else {
                (visible - 1) as nat
            }
        };
        let snapped = if main_axis_extent / target < minimum {
            minimum
        } else {
            main_axis_extent / target
        };
        if snapped == current {
            resize_dimension_spec(current, minimum, direction)
        } else {
            snapped
        }
    }
}

proof fn lemma_fewer_slots_narrower(e: int, b: int, v: int)
    requires
        e > 0,
        b >= 1,
        v >= 1,
        v == (if e / b == 0 { 1 } else { e / b }),
    ensures
        e / (v + 1) < b,
{
    let q = e / b;
    let r = e % b;
    assert(e == b * q + r && 0 <= r < b) by {
        vstd::arithmetic::div_mod::lemma_fundamental_div_mod(e, b);
        vstd::arithmetic::div_mod::lemma_mod_pos_bound(e, b);
    }
    let t = e / (v + 1);
    let u = e % (v + 1);
    assert(e == (v + 1) * t + u && 0 <= u) by {
        vstd::arithmetic::div_mod::lemma_fundamental_div_mod(e, v + 1);
        vstd::arithmetic::div_mod::lemma_mod_pos_bound(e, v + 1);
    }
    if q == 0 {
        assert(e < b) by (nonlinear_arith)
            requires
                e == b * q + r,
                r < b,
                q == 0,
        ;
        assert(t < b) by (nonlinear_arith)
            requires
                e == 2 * t + u,
                0 <= u,
                e < b,
                v == 1,
                e > 0,
        ;
    } else {
        assert(e < b * (v + 1)) by (nonlinear_arith)
            requires
                e == b * q + r,
                r < b,
                v == q,
        ;
        assert(t < b) by (nonlinear_arith)
            requires
                e == (v + 1) * t + u,
                0 <= u,
                e < b * (v + 1),
                v >= 1,
        ;
    }
}

proof fn lemma_more_slots_wider(e: int, b: int, v: int)
    requires
        e > 0,
        b >= 1,
        v >= 2,
        v == e / b,
    ensures
        e / (v - 1) >= b,
{
    let r = e % b;
    assert(e == b * v + r && 0 <= r) by {
        vstd::arithmetic::div_mod::lemma_fundamental_div_mod(e, b);
        vstd::arithmetic::div_mod::lemma_mod_pos_bound(e, b);
    }
    let t = e / (v - 1);
    let u = e % (v - 1);
    assert(e == (v - 1) * t + u && u < v - 1) by {
        vstd::arithmetic::div_mod::lemma_fundamental_div_mod(e, v - 1);
        vstd::arithmetic::div_mod::lemma_mod_pos_bound(e, v - 1);
    }
    assert(t >= b) by (nonlinear_arith)
        requires
            e == b * v + r,
            0 <= r,
            e == (v - 1) * t + u,
            u < v - 1,
            v >= 2,
            b >= 1,
    ;
}

/// Shrinking cards (`direction < 0`) never makes them wider than they were
/// (or than the minimum), so at least as many fit; growing never makes
/// them narrower, unless a card wider than the whole extent is cut down to
/// the extent; and no card is ever narrower than the minimum. (The one
/// input left out is a zero-wide card with no minimum on an extent of
/// `u16::MAX` cells, which shrinking widens to one cell.)
pub proof fn law_resizing_moves_the_breadth_its_way(
    current: u16,
    minimum: u16,
    main_axis_extent: u16,
    direction: int,
)
    requires
        !(current == 0 && minimum == 0 && main_axis_extent == u16::MAX),
    ensures
        resize_card_breadth_spec(current as nat, minimum as nat, main_axis_extent as nat, direction)
            >= minimum,
        direction < 0 ==> resize_card_breadth_spec(
            current as nat,
            minimum as nat,
            main_axis_extent as nat,
            direction,
        ) <= (if current >= minimum { current } else { minimum }),
        direction >= 0 ==> (resize_card_breadth_spec(
            current as nat,
            minimum as nat,
            main_axis_extent as nat,
            direction,
        ) >= current || (main_axis_extent > 0 && resize_card_breadth_spec(
            current as nat,
            minimum as nat,
            main_axis_extent as nat,
            direction,
        ) >= main_axis_extent)),
{
    let e = main_axis_extent as int;
    if e > 0 {
        let b: int = if current == 0 { 1 } else { current as int };
        let v: int = if e / b == 0 { 1 } else { e / b };
        assert(e / b <= e) by {
            vstd::arithmetic::div_mod::lemma_div_is_ordered_by_denominator(e, 1, b);
        }
        if direction < 0 {
            if v < u16::MAX {
                lemma_fewer_slots_narrower(e, b, v);
            } else {
                assert(e / b == e) by (nonlinear_arith)
                    requires
                        e / b >= 65535,
                        e <= 65535,
                        b >= 1,
                        e > 0,
                {
                    vstd::arithmetic::div_mod::lemma_fundamental_div_mod(e, b);
                }
                assert(b == 1) by (nonlinear_arith)
                    requires
                        e / b == e,
                        e > 0,
                        b >= 1,
                {
                    vstd::arithmetic::div_mod::lemma_fundamental_div_mod(e, b);
                    vstd::arithmetic::div_mod::lemma_mod_pos_bound(e, b);
                }
                assert(e / v == 1);
            }
        } else {
            if v >= 2 {
                lemma_more_slots_wider(e, b, v);
            } else {
                assert(e / 1 == e);
            }
        }
    }
}

/// Resizes the card breadth along the main axis so that one more
/// (`direction < 0`) or one fewer card fits the extent, snapping to an even
/// share of the extent; falls back to a one-cell step when snapping would
/// not change the breadth.
pub fn resize_card_breadth(current: u16, minimum: u16, main_axis_extent: u16, direction: isize) -> (breadth: u16)
    ensures
        breadth == resize_card_breadth_spec(
            current as nat,
            minimum as nat,
            main_axis_extent as nat,
            direction as int,
        ),
        !(current == 0 && minimum == 0 && main_axis_extent == u16::MAX) ==> {
            &&& breadth >= minimum
            &&& direction < 0 ==> breadth <= (if current >= minimum { current } else { minimum })
            &&& direction >= 0 ==> (breadth >= current || (main_axis_extent > 0 && breadth
                >= main_axis_extent))
        },
{
    proof {
        if !(current == 0 && minimum == 0 && main_axis_extent == u16::MAX) {
            law_resizing_moves_the_breadth_its_way(current, minimum, main_axis_extent, direction as int);
        }
    }
    if main_axis_extent == 0 {
        return resize_dimension(current, minimum, direction);
    }
    let breadth = if current == 0 {
        1
    } else {
        current
    };
    let visible = if main_axis_extent / breadth == 0 {
        1
    } else {
        main_axis_extent / breadth
    };
    let target = if direction < 0 {
        if visible == u16::MAX {
            visible
        } else {
            visible + 1
        }
    } else {
        if visible <= 1 {
            1
        } else {
            visible - 1
        }
    };
    let snapped = if main_axis_extent / target < minimum {
        minimum
    } else {
        main_axis_extent / target
    };
    if snapped == current {
        resize_dimension(current, minimum, direction)
    } else {
        snapped
    }
}

/// How many cards fit and how many relationship rows each card shows, for
/// a card pool of `width` by `height` cells.
#[derive(Clone, Copy, Debug, PartialEq, Eq, Structural)]
pub struct ViewportPlan {
    /// Cells along the axis the cards are laid out on.
    pub main_axis: u16,
    /// Cards requested per window: between 1 and 128.
    pub max_cards: usize,
    /// Relationship rows per card: between 1 and 64.
    pub max_relationship_rows: usize,
}

pub open spec fn viewport_spec(
    axis: CardLayoutAxis,
    width: u16,
    height: u16,
    card_width: u16,
    card_height: u16,
) -> ViewportPlan {
    let pool_height: nat = if height == 0 { 1 } else { height as nat };
    let (main_axis, breadth) = match axis {
        CardLayoutAxis::Horizontal => (width, card_width),
        CardLayoutAxis::Vertical => (height, card_height),
    };
    let b: nat = if breadth == 0 { 1 } else { breadth as nat };
    let fitted: nat = match axis {
        CardLayoutAxis::Horizontal => width as nat / b,
        CardLayoutAxis::Vertical => pool_height / b,
    };
    let cards: nat = if fitted == 0 { 1 } else if fitted > 128 { 128 } else { fitted };
    let card_rows: nat = match axis {
        CardLayoutAxis::Horizontal => pool_height,
        CardLayoutAxis::Vertical => pool_height / cards,
    };
    let rows: nat = if card_rows < 5 { 1 } else if card_rows - 4 > 64 { 64 } else { (card_rows - 4) as nat };
    ViewportPlan { main_axis, max_cards: cards as usize, max_relationship_rows: rows as usize }
}

/// The card budget of a pool of `width` by `height` cells whose cards are
/// `card_width` wide (side by side) or `card_height` high (stacked).
pub fn configure_viewport(
    axis: CardLayoutAxis,
    width: u16,
    height: u16,
    card_width: u16,
    card_height: u16,
) -> (plan: ViewportPlan)
    ensures
        plan == viewport_spec(axis, width, height, card_width, card_height),
        1 <= plan.max_cards <= 128,
        1 <= plan.max_relationship_rows <= 64,
{
    let pool_height: usize = if height == 0 { 1 } else { height as usize };
    let (main_axis, breadth) = match axis {
        CardLayoutAxis::Horizontal => (width, card_width),
        CardLayoutAxis::Vertical => (height, card_height),
    };
    let b: usize = if breadth == 0 { 1 } else { breadth as usize };
    let fitted: usize = match axis {
        CardLayoutAxis::Horizontal => width as usize / b,
        CardLayoutAxis::Vertical => pool_height / b,
    };
    let cards: usize = if fitted == 0 { 1 } else if fitted > 128 { 128 } else { fitted };
    let card_rows: usize = match axis {
        CardLayoutAxis::Horizontal => pool_height,
        CardLayoutAxis::Vertical => pool_height / cards,
    };
    let rows: usize = if card_rows < 5 { 1 } else if card_rows - 4 > 64 { 64 } else { card_rows - 4 };
    ViewportPlan { main_axis, max_cards: cards, max_relationship_rows: rows }
}

/// One piece of the breadcrumb header line; a focused item is drawn
/// reversed.
pub struct HeaderSpan {
    pub text: String,
    pub reversed: bool,
}

pub struct HeaderSpanView {
    pub text: Seq<char>,
    pub reversed: bool,
}

pub open spec fn header_view(spans: Seq<HeaderSpan>) -> Seq<HeaderSpanView> {
    spans.map_values(|span: HeaderSpan| HeaderSpanView { text: span.text@, reversed: span.reversed })
}

pub open spec fn plain(text: Seq<char>) -> HeaderSpanView {
    HeaderSpanView { text, reversed: false }
}

/// A breadcrumb of the header: `[label]` reversed when focused.
pub open spec fn header_item(label: Seq<char>, focused: bool) -> HeaderSpanView {
    if focused {
        HeaderSpanView { text: seq!['['] + label + seq![']'], reversed: true }
    } else {
        plain(label)
    }
}

pub open spec fn focus_at(focus: Option<BreadcrumbBarFocus>, position: nat) -> bool {
    match focus {
        Some(f) => f.position == position,
        None => false,
    }
}

/// The header items for the visible breadcrumbs `labels`, the first of them
/// being breadcrumb `first_visible`.
pub open spec fn header_items(labels: Seq<Seq<char>>, first_visible: nat, focus: Option<BreadcrumbBarFocus>) -> Seq<HeaderSpanView>
    decreases labels.len(),
{
    if labels.len() == 0 {
        Seq::empty()
    } else {
        header_items(labels.drop_last(), first_visible, focus) + seq![
            plain(" > "@),
            header_item(labels.last(), focus_at(focus, (first_visible + labels.len() - 1) as nat)),
        ]
    }
}

/// The breadcrumb header: "Everything", a count of hidden earlier
/// breadcrumbs, each visible breadcrumb, then the add position, separated
/// by " > ", the focused one marked.
pub open spec fn breadcrumb_header_spec(
    first_visible: usize,
    labels: Seq<Seq<char>>,
    breadcrumb_count: usize,
    focus: Option<BreadcrumbBarFocus>,
) -> Seq<HeaderSpanView> {
    let earlier = if first_visible > 0 {
        seq![plain(" > "@), plain("… "@ + decimal(first_visible as nat) + " earlier"@)]
    } else {
        Seq::empty()
    };
    seq![plain("Everything"@)] + earlier + header_items(labels, first_visible as nat, focus) + seq![
        plain(" > "@),
        header_item("+Add Breadcrumb"@, match focus {
            Some(f) => f.position >= breadcrumb_count,
            None => false,
        }),
    ]
}

fn plain_span(text: &str) -> (span: HeaderSpan)
    ensures
        span.text@ == text@,
        !span.reversed,
{
    HeaderSpan { text: String::from_str(text), reversed: false }
}

fn item_span(label: &str, focused: bool) -> (span: HeaderSpan)
    ensures
        (HeaderSpanView { text: span.text@, reversed: span.reversed }) == header_item(label@, focused),
{
    if focused {
        let mut text = String::new();
        push_char(&mut text, '[');
        push_text(&mut text, label);
        push_char(&mut text, ']');
        assert(text@ =~= seq!['['] + label@ + seq![']']);
        HeaderSpan { text, reversed: true }
    } else {
        plain_span(label)
    }
}

pub fn breadcrumb_header(
    first_visible: usize,
    labels: &Vec<String>,
    breadcrumb_count: usize,
    focus: Option<BreadcrumbBarFocus>,
) -> (spans: Vec<HeaderSpan>)
    requires
        first_visible + labels@.len() <= usize::MAX,
    ensures
        header_view(spans@) == breadcrumb_header_spec(first_visible, strings_view(labels@), breadcrumb_count, focus),
{
    let ghost all = strings_view(labels@);
    let mut spans: Vec<HeaderSpan> = Vec::new();
    spans.push(plain_span("Everything"));
    if first_visible > 0 {
        spans.push(plain_span(" > "));
        let mut earlier = String::from_str("… ");
        push_decimal(&mut earlier, first_visible as u64);
        push_text(&mut earlier, " earlier");
        spans.push(HeaderSpan { text: earlier, reversed: false });
    }
    let ghost prefix = header_view(spans@);
    let mut i: usize = 0;
    while i < labels.len()
        invariant
            all == strings_view(labels@),
            i <= labels@.len(),
            first_visible + labels@.len() <= usize::MAX,
            header_view(spans@) == prefix + header_items(all.take(i as int), first_visible as nat, focus),
        decreases labels.len() - i,
    {
        assert(all.take(i + 1).drop_last() =~= all.take(i as int));
        assert(all.take(i + 1).last() == labels@[i as int]@);
        let focused = match focus {
            Some(f) => f.position == first_visible + i,
            None => false,
        };
        let separator = plain_span(" > ");
        let item = item_span(labels[i].as_str(), focused);
        let ghost before = header_view(spans@);
        spans.push(separator);
        spans.push(item);
        assert(header_view(spans@) =~= before.push(plain(" > "@)).push(header_item(labels@[i as int]@, focused)));
        assert(before.push(plain(" > "@)).push(header_item(labels@[i as int]@, focused)) =~= before + seq![plain(" > "@), header_item(labels@[i as int]@, focused)]);
        i = i + 1;
    }
    assert(all.take(labels@.len() as int) =~= all);
    let add_focused = match focus {
        Some(f) => f.is_add(breadcrumb_count),
        None => false,
    };
    let ghost before = header_view(spans@);
    spans.push(plain_span(" > "));
    spans.push(item_span("+Add Breadcrumb", add_focused));
    assert(header_view(spans@) =~= before.push(plain(" > "@)).push(header_item("+Add Breadcrumb"@, add_focused)));
    assert(before.push(plain(" > "@)).push(header_item("+Add Breadcrumb"@, add_focused)) =~= before + seq![plain(" > "@), header_item("+Add Breadcrumb"@, add_focused)]);
    spans
}

} // verus!
