//! The browser's view of its browse session: the card window last filled,
//! whether a scan is still running, and whether the next window should move
//! the selection to its first card. Card navigation decides from the window
//! whether the viewport must scroll.
use vstd::prelude::*;
use crate::explorer::card::{CardWindow, WindowView};
use crate::explorer::card_address::{CardAddress, CardAddressView};
use crate::explorer::value_address::{AddressView, ValueAddress};

verus! {

/// Direction of a card-to-card move.
#[derive(Clone, Copy, Debug, PartialEq, Eq, Structural)]
pub enum CardNavigation {
    Next,
    Previous,
}

/// Whether `window` shows the card at `card`.
pub open spec fn window_shows(window: Option<WindowView>, card: CardAddressView) -> bool {
    match window {
        Some(w) => exists|i: int| 0 <= i < w.cards.len() && w.cards[i].address == card,
        None => false,
    }
}

/// The viewport anchor after moving the selection from `from` to `target`:
/// unchanged (`None`) while the target is already shown; otherwise a move
/// forward anchors on the card left behind, a move back on the target.
pub open spec fn anchor_after_move(
    direction: CardNavigation,
    from: AddressView,
    target: AddressView,
    visible: bool,
) -> Option<CardAddressView> {
    if visible {
        None
    } else {
        match direction {
            CardNavigation::Next => Some(CardAddressView::Value(from)),
            CardNavigation::Previous => Some(CardAddressView::Value(target)),
        }
    }
}

fn window_has(window: &CardWindow, card: &CardAddress) -> (shown: bool)
    ensures
        shown == window_shows(Some(window@), card@),
{
    let cards = window.cards();
    let mut i: usize = 0;
    while i < cards.len()
        invariant
            i <= cards.len(),
            crate::explorer::card::cards_view(cards@) == window@.cards,
            forall|j: int| 0 <= j < i ==> window@.cards[j].address != card@,
        decreases cards.len() - i,
    {
        if cards[i].address().same_as(card) {
            assert(window@.cards[i as int].address == card@);
            return true;
        }
        i = i + 1;
    }
    false
}

/// The new viewport anchor after the selection moved from `from` to `target`
/// in `direction`, given the window on screen (`None` keeps the anchor).
pub fn navigation_anchor(
    direction: CardNavigation,
    from: &ValueAddress,
    target: &ValueAddress,
    window: Option<&CardWindow>,
) -> (anchor: Option<CardAddress>)
    ensures
        match anchor {
            Some(a) => anchor_after_move(
                direction,
                from@,
                target@,
                window_shows(
                    match window {
                        Some(w) => Some(w@),
                        None => None,
                    },
                    CardAddressView::Value(target@),
                ),
            ) == Some(a@),
            None => anchor_after_move(
                direction,
                from@,
                target@,
                window_shows(
                    match window {
                        Some(w) => Some(w@),
                        None => None,
                    },
                    CardAddressView::Value(target@),
                ),
            ) is None,
        },
{
    let target_card = CardAddress::Value(target.duplicate());
    let visible = match window {
        Some(window) => window_has(window, &target_card),
        None => false,
    };
    if visible {
        None
    } else {
        match direction {
            CardNavigation::Next => Some(CardAddress::Value(from.duplicate())),
            CardNavigation::Previous => Some(target_card),
        }
    }
}

/// Where a card move starts: the selected value card; the create-object
/// card has nowhere further to go.
pub fn navigation_origin(selection: &CardAddress) -> (from: Option<ValueAddress>)
    ensures
        match selection@ {
            CardAddressView::Value(a) => from matches Some(f) && f@ == a,
            CardAddressView::NewSlot => from is None,
        },
{
    match selection {
        CardAddress::Value(address) => Some(address.duplicate()),
        CardAddress::NewSlot => None,
    }
}

/// What filling the card window reported.
pub enum WindowProgress {
    /// The window is filled.
    Ready(CardWindow),
    /// The scan ran out of work before the window filled.
    Pending,
    /// The query has no values.
    Complete,
    /// The fill was cancelled.
    Cancelled,
    /// The arena or the query changed while the window was being filled.
    Stale,
}

pub enum ProgressView {
    Ready(WindowView),
    Pending,
    Complete,
    Cancelled,
    Stale,
}

impl View for WindowProgress {
    type V = ProgressView;

    open spec fn view(&self) -> ProgressView {
        match self {
            WindowProgress::Ready(window) => ProgressView::Ready(window@),
            WindowProgress::Pending => ProgressView::Pending,
            WindowProgress::Complete => ProgressView::Complete,
            WindowProgress::Cancelled => ProgressView::Cancelled,
            WindowProgress::Stale => ProgressView::Stale,
        }
    }
}

/// Where the selection and the viewport move when a window arrives while
/// a re-anchor is pending: to the first card of a ready window, or to the
/// create-object card when the query turned out empty.
pub open spec fn reanchor_target(reanchor: bool, progress: ProgressView) -> Option<CardAddressView> {
    if !reanchor {
        None
    } else {
        match progress {
            ProgressView::Ready(window) => if window.cards.len() > 0 {
                Some(window.cards[0].address)
            } else {
                None
            },
            ProgressView::Complete => Some(CardAddressView::NewSlot),
            _ => None,
        }
    }
}

/// Whether a re-anchor is still pending after a report: a ready window or
/// an empty query resolves it, anything else leaves it as it was.
pub open spec fn reanchor_after(reanchor: bool, progress: ProgressView) -> bool {
    match progress {
        ProgressView::Ready(_) => false,
        ProgressView::Complete => false,
        _ => reanchor,
    }
}

pub open spec fn option_window(window: Option<CardWindow>) -> Option<WindowView> {
    match window {
        Some(w) => Some(w@),
        None => None,
    }
}

/// The browse session as the browser sees it.
pub struct BrowseState {
    pub window: Option<CardWindow>,
    pub scanning: bool,
    pub reanchor_on_next_window: bool,
}

impl BrowseState {
    /// No window yet, no scan running, no re-anchor pending.
    pub fn new() -> (state: BrowseState)
        ensures
            state.window is None,
            !state.scanning,
            !state.reanchor_on_next_window,
    {
        BrowseState { window: None, scanning: false, reanchor_on_next_window: false }
    }

    /// The active tab's query changed: the window is dropped and the next
    /// window re-anchors the selection.
    pub fn query_changed(&mut self)
        ensures
            final(self).window is None,
            !final(self).scanning,
            final(self).reanchor_on_next_window,
    {
        self.window = None;
        self.scanning = false;
        self.reanchor_on_next_window = true;
    }

    /// Another tab became active: its own selection stands, so no re-anchor.
    pub fn tab_changed(&mut self)
        ensures
            final(self).window is None,
            !final(self).scanning,
            !final(self).reanchor_on_next_window,
    {
        self.window = None;
        self.scanning = false;
        self.reanchor_on_next_window = false;
    }

    /// Takes in what filling the window reported. Returns the card that the
    /// selection and the viewport anchor move to (with the row focus
    /// cleared), when a pending re-anchor is resolved by this report.
    pub fn apply_window_progress(&mut self, progress: WindowProgress) -> (moved_to: Option<CardAddress>)
        ensures
            match moved_to {
                Some(a) => reanchor_target(old(self).reanchor_on_next_window, progress@) == Some(a@),
                None => reanchor_target(old(self).reanchor_on_next_window, progress@) is None,
            },
            final(self).reanchor_on_next_window == reanchor_after(
                old(self).reanchor_on_next_window,
                progress@,
            ),
            match progress@ {
                ProgressView::Ready(w) => option_window(final(self).window) == Some(w)
                    && !final(self).scanning && !final(self).reanchor_on_next_window,
                ProgressView::Pending => option_window(final(self).window) == option_window(
                    old(self).window,
                ) && final(self).scanning && final(self).reanchor_on_next_window == old(
                    self,
                ).reanchor_on_next_window,
                ProgressView::Complete => final(self).window is None && !final(self).scanning
                    && !final(self).reanchor_on_next_window,
                ProgressView::Cancelled => option_window(final(self).window) == option_window(
                    old(self).window,
                ) && !final(self).scanning && final(self).reanchor_on_next_window == old(
                    self,
                ).reanchor_on_next_window,
                ProgressView::Stale => final(self).window is None && !final(self).scanning
                    && final(self).reanchor_on_next_window == old(self).reanchor_on_next_window,
            },
    {
        match progress {
            WindowProgress::Ready(window) => {
                let mut moved_to = None;
                if self.reanchor_on_next_window {
                    let cards = window.cards();
                    if cards.len() > 0 {
                        proof {
                            assert(crate::explorer::card::cards_view(cards@)[0] == cards@[0]@);
                        }
                        moved_to = Some(cards[0].address().duplicate());
                    }
                    self.reanchor_on_next_window = false;
                }
                self.window = Some(window);
                self.scanning = false;
                moved_to
            },
            WindowProgress::Pending => {
                self.scanning = true;
                None
            },
            WindowProgress::Complete => {
                self.window = None;
                self.scanning = false;
                if self.reanchor_on_next_window {
                    self.reanchor_on_next_window = false;
                    Some(CardAddress::NewSlot)
                } else {
                    None
                }
            },
            WindowProgress::Cancelled => {
                self.scanning = false;
                None
            },
            WindowProgress::Stale => {
                self.window = None;
                self.scanning = false;
                None
            },
        }
    }
}

/// After a query change, the first window that arrives moves the selection
/// to its first card, or to the create-object card when the query is empty;
/// a window that arrives afterwards moves nothing.
pub proof fn law_query_change_reanchors_once(first: ProgressView, second: ProgressView)
    requires
        first is Ready || first is Complete,
        first matches ProgressView::Ready(w) ==> w.cards.len() > 0,
    ensures
        reanchor_target(true, first) == (match first {
            ProgressView::Ready(w) => Some(w.cards[0].address),
            _ => Some(CardAddressView::NewSlot),
        }),
        reanchor_target(reanchor_after(true, first), second) is None,
{
}

/// Moving the selection to a card that is already shown never scrolls.
pub proof fn law_moves_inside_the_window_do_not_scroll(
    direction: CardNavigation,
    from: AddressView,
    target: AddressView,
    window: WindowView,
    i: int,
)
    requires
        0 <= i < window.cards.len(),
        window.cards[i].address == CardAddressView::Value(target),
    ensures
        anchor_after_move(
            direction,
            from,
            target,
            window_shows(Some(window), CardAddressView::Value(target)),
        ) is None,
{
}

} // verus!
