//! What the browser does with a key press in each mode: the decisions of
//! the event loop, from a plain description of the key to the action to
//! take. Performing the action (asking the engine, redrawing) is left to
//! the caller.
use vstd::prelude::*;
use crate::browser::bar_focus::{BreadcrumbBarFocus, focus_after_next, focus_after_previous};
use crate::text::{decimal, push_decimal, push_text};

verus! {

/// The key that was pressed.
#[derive(Clone, Copy, Debug, PartialEq, Eq, Structural)]
pub enum KeyCodeInput {
    Char(char),
    Esc,
    Enter,
    Backspace,
    Delete,
    Left,
    Right,
    Up,
    Down,
    Home,
    End,
    PageUp,
    PageDown,
    F(u8),
    Other,
}

/// Whether the key went down, repeats or came up.
#[derive(Clone, Copy, Debug, PartialEq, Eq, Structural)]
pub enum KeyKind {
    Press,
    Repeat,
    Release,
}

/// A key event: the key, its kind and the modifiers held.
#[derive(Clone, Copy, Debug, PartialEq, Eq, Structural)]
pub struct KeyInput {
    pub code: KeyCodeInput,
    pub kind: KeyKind,
    pub shift: bool,
    pub control: bool,
    pub alt: bool,
}

/// `char::is_control`: the Unicode general category Cc, which is exactly
/// U+0000..=U+001F and U+007F..=U+009F.
pub open spec fn is_control_spec(c: char) -> bool {
    (c as u32) <= 0x1F || (0x7F <= (c as u32) && (c as u32) <= 0x9F)
}

pub fn is_control(c: char) -> (control: bool)
    ensures
        control == is_control_spec(c),
{
    let code = c as u32;
    code <= 0x1F || (0x7F <= code && code <= 0x9F)
}

/// The character a key types into a query, if it types one: a printable
/// character other than space, without Ctrl or Alt.
pub open spec fn query_character(key: KeyInput) -> Option<char> {
    match key.code {
        KeyCodeInput::Char(c) => if c != ' ' && !is_control_spec(c) && !key.control && !key.alt {
            Some(c)
        } else {
            None
        },
        _ => None,
    }
}

pub fn typed_query_character(key: KeyInput) -> (c: Option<char>)
    ensures
        c == query_character(key),
{
    match key.code {
        KeyCodeInput::Char(c) => if c != ' ' && !is_control(c) && !key.control && !key.alt {
            Some(c)
        } else {
            None
        },
        _ => None,
    }
}

/// What happens to a key event before any mode sees it.
#[derive(Clone, Copy, Debug, PartialEq, Eq, Structural)]
pub enum KeyGate {
    Ignore,
    Quit,
    Dispatch,
}

/// Releases are ignored, and so is a repeated Esc; Ctrl+C quits; anything
/// else goes to the current mode.
pub fn key_gate(key: KeyInput) -> (gate: KeyGate)
    ensures
        gate == (if key.kind == KeyKind::Release {
            KeyGate::Ignore
        } else if key.code == KeyCodeInput::Esc && key.kind != KeyKind::Press {
            KeyGate::Ignore
        } else if key.control && (key.code == KeyCodeInput::Char('c') || key.code
            == KeyCodeInput::Char('C')) {
            KeyGate::Quit
        } else {
            KeyGate::Dispatch
        }),
{
    if key.kind == KeyKind::Release {
        return KeyGate::Ignore;
    }
    if key.code == KeyCodeInput::Esc && key.kind != KeyKind::Press {
        return KeyGate::Ignore;
    }
    if key.control && (key.code == KeyCodeInput::Char('c') || key.code == KeyCodeInput::Char('C')) {
        return KeyGate::Quit;
    }
    KeyGate::Dispatch
}

/// What a key does while the card pool has the focus.
#[derive(Clone, Copy, Debug, PartialEq, Eq, Structural)]
pub enum PoolAction {
    SwitchTabPrevious,
    SwitchTabNext,
    OpenBreadcrumbPicker,
    RemoveLastBreadcrumb,
    CloseTab,
    EditTabName,
    ShrinkCards,
    GrowCards,
    ToggleAxis,
    FocusFirstCard,
    FocusNewSlot,
    BreadcrumbBar,
    Escape,
    ToggleFill,
    NavigatePrevious,
    NavigateNext,
    RowUp,
    RowDown,
    RowFirst,
    RowLast,
    Activate,
    StartRowSearch(char),
    Ignore,
}

pub open spec fn pool_action(key: KeyInput, breadcrumb_bar_focused: bool) -> PoolAction {
    let code = key.code;
    if key.shift && (code == KeyCodeInput::Char('[') || code == KeyCodeInput::Char('{')) {
        PoolAction::SwitchTabPrevious
    } else if key.shift && (code == KeyCodeInput::Char(']') || code == KeyCodeInput::Char('}')) {
        PoolAction::SwitchTabNext
    } else if key.shift && (code == KeyCodeInput::Char(';') || code == KeyCodeInput::Char(':')) {
        PoolAction::OpenBreadcrumbPicker
    } else if key.control && code == KeyCodeInput::Backspace {
        PoolAction::RemoveLastBreadcrumb
    } else if key.control && (code == KeyCodeInput::Char('w') || code == KeyCodeInput::Char('W')) {
        PoolAction::CloseTab
    } else if code == KeyCodeInput::F(2) {
        PoolAction::EditTabName
    } else if key.alt && code == KeyCodeInput::Char('-') {
        PoolAction::ShrinkCards
    } else if key.alt && (code == KeyCodeInput::Char('+') || code == KeyCodeInput::Char('=')) {
        PoolAction::GrowCards
    } else if key.control && (code == KeyCodeInput::Char('t') || code == KeyCodeInput::Char('T')) {
        PoolAction::ToggleAxis
    } else if key.shift && code == KeyCodeInput::Home {
        PoolAction::FocusFirstCard
    } else if key.shift && code == KeyCodeInput::End {
        PoolAction::FocusNewSlot
    } else if breadcrumb_bar_focused {
        PoolAction::BreadcrumbBar
    } else {
        match code {
            KeyCodeInput::Esc => PoolAction::Escape,
            KeyCodeInput::F(3) => PoolAction::ToggleFill,
            KeyCodeInput::Left => PoolAction::NavigatePrevious,
            KeyCodeInput::Right => PoolAction::NavigateNext,
            KeyCodeInput::Up => PoolAction::RowUp,
            KeyCodeInput::Down => PoolAction::RowDown,
            KeyCodeInput::Home => PoolAction::RowFirst,
            KeyCodeInput::End => PoolAction::RowLast,
            KeyCodeInput::Enter => PoolAction::Activate,
            KeyCodeInput::Char(' ') => PoolAction::Activate,
            _ => match query_character(key) {
                Some(c) => PoolAction::StartRowSearch(c),
                None => PoolAction::Ignore,
            },
        }
    }
}

/// In the card pool, the arrow keys move the focus the way they point:
/// Up and Down move the row focus up and down, Left and Right move to the
/// previous and next card, Home and End (without Shift) jump to the first
/// and last row; Enter activates and Esc escapes. While the breadcrumb bar
/// has the focus, plain keys go to the bar.
pub proof fn law_pool_keys_move_in_their_direction(key: KeyInput, breadcrumb_bar_focused: bool)
    ensures
        !breadcrumb_bar_focused ==> {
            &&& key.code == KeyCodeInput::Up ==> pool_action(key, breadcrumb_bar_focused)
                == PoolAction::RowUp
            &&& key.code == KeyCodeInput::Down ==> pool_action(key, breadcrumb_bar_focused)
                == PoolAction::RowDown
            &&& key.code == KeyCodeInput::Left ==> pool_action(key, breadcrumb_bar_focused)
                == PoolAction::NavigatePrevious
            &&& key.code == KeyCodeInput::Right ==> pool_action(key, breadcrumb_bar_focused)
                == PoolAction::NavigateNext
            &&& key.code == KeyCodeInput::Home && !key.shift ==> pool_action(
                key,
                breadcrumb_bar_focused,
            ) == PoolAction::RowFirst
            &&& key.code == KeyCodeInput::End && !key.shift ==> pool_action(
                key,
                breadcrumb_bar_focused,
            ) == PoolAction::RowLast
            &&& key.code == KeyCodeInput::Enter ==> pool_action(key, breadcrumb_bar_focused)
                == PoolAction::Activate
            &&& key.code == KeyCodeInput::Esc ==> pool_action(key, breadcrumb_bar_focused)
                == PoolAction::Escape
        },
        breadcrumb_bar_focused && !key.shift && !key.control && !key.alt && key.code
            != KeyCodeInput::F(2) ==> pool_action(key, breadcrumb_bar_focused)
            == PoolAction::BreadcrumbBar,
        key.shift && key.code == KeyCodeInput::Char('[') ==> pool_action(key, breadcrumb_bar_focused)
            == PoolAction::SwitchTabPrevious,
        key.shift && key.code == KeyCodeInput::Char(']') ==> pool_action(key, breadcrumb_bar_focused)
            == PoolAction::SwitchTabNext,
        key.alt && !key.shift && key.code == KeyCodeInput::Char('-') ==> pool_action(
            key,
            breadcrumb_bar_focused,
        ) == PoolAction::ShrinkCards,
        key.alt && !key.shift && key.code == KeyCodeInput::Char('=') ==> pool_action(
            key,
            breadcrumb_bar_focused,
        ) == PoolAction::GrowCards,
        key.control && key.code == KeyCodeInput::Backspace ==> pool_action(key, breadcrumb_bar_focused)
            == PoolAction::RemoveLastBreadcrumb,
        key.shift && key.code == KeyCodeInput::Home ==> pool_action(key, breadcrumb_bar_focused)
            == PoolAction::FocusFirstCard,
        key.shift && key.code == KeyCodeInput::End ==> pool_action(key, breadcrumb_bar_focused)
            == PoolAction::FocusNewSlot,
{
}

/// The action of `key` in the card pool; keys that leave the pool's own
/// modes (tabs, layout, breadcrumbs) take precedence over the breadcrumb
/// bar, which takes the remaining keys while it has the focus.
pub fn pool_key_action(key: KeyInput, breadcrumb_bar_focused: bool) -> (action: PoolAction)
    ensures
        action == pool_action(key, breadcrumb_bar_focused),
        !breadcrumb_bar_focused ==> {
            &&& key.code == KeyCodeInput::Up ==> action == PoolAction::RowUp
            &&& key.code == KeyCodeInput::Down ==> action == PoolAction::RowDown
            &&& key.code == KeyCodeInput::Left ==> action == PoolAction::NavigatePrevious
            &&& key.code == KeyCodeInput::Right ==> action == PoolAction::NavigateNext
            &&& key.code == KeyCodeInput::Home && !key.shift ==> action == PoolAction::RowFirst
            &&& key.code == KeyCodeInput::End && !key.shift ==> action == PoolAction::RowLast
            &&& key.code == KeyCodeInput::Enter ==> action == PoolAction::Activate
            &&& key.code == KeyCodeInput::Esc ==> action == PoolAction::Escape
        },
        breadcrumb_bar_focused && !key.shift && !key.control && !key.alt && key.code
            != KeyCodeInput::F(2) ==> action == PoolAction::BreadcrumbBar,
        key.shift && key.code == KeyCodeInput::Char('[') ==> action == PoolAction::SwitchTabPrevious,
        key.shift && key.code == KeyCodeInput::Char(']') ==> action == PoolAction::SwitchTabNext,
        key.alt && !key.shift && key.code == KeyCodeInput::Char('-') ==> action == PoolAction::ShrinkCards,
        key.alt && !key.shift && key.code == KeyCodeInput::Char('=') ==> action == PoolAction::GrowCards,
        key.control && key.code == KeyCodeInput::Backspace ==> action == PoolAction::RemoveLastBreadcrumb,
        key.shift && key.code == KeyCodeInput::Home ==> action == PoolAction::FocusFirstCard,
        key.shift && key.code == KeyCodeInput::End ==> action == PoolAction::FocusNewSlot,
{
    proof {
        law_pool_keys_move_in_their_direction(key, breadcrumb_bar_focused);
    }
    let code = key.code;
    if key.shift && (code == KeyCodeInput::Char('[') || code == KeyCodeInput::Char('{')) {
        return PoolAction::SwitchTabPrevious;
    }
    if key.shift && (code == KeyCodeInput::Char(']') || code == KeyCodeInput::Char('}')) {
        return PoolAction::SwitchTabNext;
    }
    if key.shift && (code == KeyCodeInput::Char(';') || code == KeyCodeInput::Char(':')) {
        return PoolAction::OpenBreadcrumbPicker;
    }
    if key.control && code == KeyCodeInput::Backspace {
        return PoolAction::RemoveLastBreadcrumb;
    }
    if key.control && (code == KeyCodeInput::Char('w') || code == KeyCodeInput::Char('W')) {
        return PoolAction::CloseTab;
    }
    if code == KeyCodeInput::F(2) {
        return PoolAction::EditTabName;
    }
    if key.alt && code == KeyCodeInput::Char('-') {
        return PoolAction::ShrinkCards;
    }
    if key.alt && (code == KeyCodeInput::Char('+') || code == KeyCodeInput::Char('=')) {
        return PoolAction::GrowCards;
    }
    if key.control && (code == KeyCodeInput::Char('t') || code == KeyCodeInput::Char('T')) {
        return PoolAction::ToggleAxis;
    }
    if key.shift && code == KeyCodeInput::Home {
        return PoolAction::FocusFirstCard;
    }
    if key.shift && code == KeyCodeInput::End {
        return PoolAction::FocusNewSlot;
    }
    if breadcrumb_bar_focused {
        return PoolAction::BreadcrumbBar;
    }
    match code {
        KeyCodeInput::Esc => PoolAction::Escape,
        KeyCodeInput::F(3) => PoolAction::ToggleFill,
        KeyCodeInput::Left => PoolAction::NavigatePrevious,
        KeyCodeInput::Right => PoolAction::NavigateNext,
        KeyCodeInput::Up => PoolAction::RowUp,
        KeyCodeInput::Down => PoolAction::RowDown,
        KeyCodeInput::Home => PoolAction::RowFirst,
        KeyCodeInput::End => PoolAction::RowLast,
        KeyCodeInput::Enter => PoolAction::Activate,
        KeyCodeInput::Char(' ') => PoolAction::Activate,
        _ => match typed_query_character(key) {
            Some(c) => PoolAction::StartRowSearch(c),
            None => PoolAction::Ignore,
        },
    }
}

/// What a key does during a row search.
#[derive(Clone, Copy, Debug, PartialEq, Eq, Structural)]
pub enum RowSearchAction {
    Close,
    Accept,
    Move(isize),
    ToEdge { first: bool },
    Pop,
    Push(char),
    Ignore,
}

pub fn row_search_key_action(key: KeyInput) -> (action: RowSearchAction)
    ensures
        (key.code == KeyCodeInput::Up || key.code == KeyCodeInput::PageUp) ==> (action matches RowSearchAction::Move(delta) && delta < 0),
        (key.code == KeyCodeInput::Down || key.code == KeyCodeInput::PageDown) ==> (action matches RowSearchAction::Move(delta) && delta > 0),
        key.code == KeyCodeInput::PageUp ==> (action matches RowSearchAction::Move(delta) && delta < -1),
        key.code == KeyCodeInput::PageDown ==> (action matches RowSearchAction::Move(delta) && delta > 1),
        key.code == KeyCodeInput::Home ==> action == (RowSearchAction::ToEdge { first: true }),
        key.code == KeyCodeInput::End ==> action == (RowSearchAction::ToEdge { first: false }),
        key.code == KeyCodeInput::Esc ==> action == RowSearchAction::Close,
        key.code == KeyCodeInput::Enter ==> action == RowSearchAction::Accept,
        key.code == KeyCodeInput::Backspace ==> action == RowSearchAction::Pop,
        action == match key.code {
            KeyCodeInput::Esc => RowSearchAction::Close,
            KeyCodeInput::Enter => RowSearchAction::Accept,
            KeyCodeInput::Up => RowSearchAction::Move(-1isize),
            KeyCodeInput::Down => RowSearchAction::Move(1),
            KeyCodeInput::PageUp => RowSearchAction::Move(-10isize),
            KeyCodeInput::PageDown => RowSearchAction::Move(10),
            KeyCodeInput::Home => RowSearchAction::ToEdge { first: true },
            KeyCodeInput::End => RowSearchAction::ToEdge { first: false },
            KeyCodeInput::Backspace => RowSearchAction::Pop,
            _ => match query_character(key) {
                Some(c) => RowSearchAction::Push(c),
                None => RowSearchAction::Ignore,
            },
        },
{
    match key.code {
        KeyCodeInput::Esc => RowSearchAction::Close,
        KeyCodeInput::Enter => RowSearchAction::Accept,
        KeyCodeInput::Up => RowSearchAction::Move(-1isize),
        KeyCodeInput::Down => RowSearchAction::Move(1),
        KeyCodeInput::PageUp => RowSearchAction::Move(-10isize),
        KeyCodeInput::PageDown => RowSearchAction::Move(10),
        KeyCodeInput::Home => RowSearchAction::ToEdge { first: true },
        KeyCodeInput::End => RowSearchAction::ToEdge { first: false },
        KeyCodeInput::Backspace => RowSearchAction::Pop,
        _ => match typed_query_character(key) {
            Some(c) => RowSearchAction::Push(c),
            None => RowSearchAction::Ignore,
        },
    }
}

/// What a key does in a list picker or a text editor.
#[derive(Clone, Copy, Debug, PartialEq, Eq, Structural)]
pub enum PickerAction {
    Cancel,
    Previous,
    Next,
    Pop,
    Accept,
    Push(char),
    Ignore,
}

/// Esc cancels, Up and Down move, Backspace deletes, Enter accepts, and any
/// character typed without Ctrl or Alt is appended.
pub fn picker_key_action(key: KeyInput) -> (action: PickerAction)
    ensures
        key.code == KeyCodeInput::Up ==> action == PickerAction::Previous,
        key.code == KeyCodeInput::Down ==> action == PickerAction::Next,
        key.code == KeyCodeInput::Esc ==> action == PickerAction::Cancel,
        key.code == KeyCodeInput::Enter ==> action == PickerAction::Accept,
        key.code == KeyCodeInput::Backspace ==> action == PickerAction::Pop,
        action == match key.code {
            KeyCodeInput::Esc => PickerAction::Cancel,
            KeyCodeInput::Up => PickerAction::Previous,
            KeyCodeInput::Down => PickerAction::Next,
            KeyCodeInput::Backspace => PickerAction::Pop,
            KeyCodeInput::Enter => PickerAction::Accept,
            KeyCodeInput::Char(c) => if !key.control && !key.alt {
                PickerAction::Push(c)
            } else {
                PickerAction::Ignore
            },
            _ => PickerAction::Ignore,
        },
{
    match key.code {
        KeyCodeInput::Esc => PickerAction::Cancel,
        KeyCodeInput::Up => PickerAction::Previous,
        KeyCodeInput::Down => PickerAction::Next,
        KeyCodeInput::Backspace => PickerAction::Pop,
        KeyCodeInput::Enter => PickerAction::Accept,
        KeyCodeInput::Char(c) => if !key.control && !key.alt {
            PickerAction::Push(c)
        } else {
            PickerAction::Ignore
        },
        _ => PickerAction::Ignore,
    }
}

/// How long Esc presses are remembered toward quitting, in nanoseconds.
pub const ESCAPE_WINDOW_NANOS: u64 = 5_000_000_000;

/// Esc presses needed within the window to quit.
pub const ESCAPE_PRESSES_TO_QUIT: usize = 3;

/// What Esc does in the card pool.
#[derive(Clone, Copy, Debug, PartialEq, Eq, Structural)]
pub enum EscapeOutcome {
    /// Leave the focused root or the single-card view.
    CloseFocus,
    /// Remove the last breadcrumb of the tab.
    PopBreadcrumb,
    /// Quit the browser.
    Quit,
    /// Ask for `remaining` more presses.
    Warn { remaining: usize },
}

/// Presses (times in nanoseconds) still remembered at `now`.
pub open spec fn recent_presses(presses: Seq<u64>, now: u64) -> Seq<u64>
    decreases presses.len(),
{
    if presses.len() == 0 {
        Seq::empty()
    } else {
        let rest = recent_presses(presses.drop_last(), now);
        if now.saturating_sub(presses.last()) <= ESCAPE_WINDOW_NANOS {
            rest.push(presses.last())
        } else {
            rest
        }
    }
}

/// The outcome of Esc at `now` and the presses remembered afterwards: a
/// focused root or single-card view closes first, then breadcrumbs are
/// removed one by one (both forgetting earlier presses), and only then do
/// presses count toward quitting, three within five seconds.
pub open spec fn escape_spec(
    focus_open: bool,
    breadcrumb_count: usize,
    presses: Seq<u64>,
    now: u64,
) -> (EscapeOutcome, Seq<u64>) {
    if focus_open {
        (EscapeOutcome::CloseFocus, Seq::empty())
    } else if breadcrumb_count > 0 {
        (EscapeOutcome::PopBreadcrumb, Seq::empty())
    } else {
        let kept = recent_presses(presses, now).push(now);
        let remaining = if kept.len() >= ESCAPE_PRESSES_TO_QUIT {
            0
        } else {
            (ESCAPE_PRESSES_TO_QUIT - kept.len()) as usize
        };
        if remaining == 0 {
            (EscapeOutcome::Quit, kept)
        } else {
            (EscapeOutcome::Warn { remaining }, kept)
        }
    }
}

pub fn escape_outcome(focus_open: bool, breadcrumb_count: usize, presses: &Vec<u64>, now: u64) -> (result: (
    EscapeOutcome,
    Vec<u64>,
))
    ensures
        (result.0, result.1@) == escape_spec(focus_open, breadcrumb_count, presses@, now),
{
    if focus_open {
        return (EscapeOutcome::CloseFocus, Vec::new());
    }
    if breadcrumb_count > 0 {
        return (EscapeOutcome::PopBreadcrumb, Vec::new());
    }
    let mut kept: Vec<u64> = Vec::new();
    let mut i: usize = 0;
    while i < presses.len()
        invariant
            i <= presses@.len(),
            kept@ == recent_presses(presses@.take(i as int), now),
            kept@.len() <= i,
        decreases presses.len() - i,
    {
        assert(presses@.take(i + 1).drop_last() =~= presses@.take(i as int));
        if now.saturating_sub(presses[i]) <= ESCAPE_WINDOW_NANOS {
            kept.push(presses[i]);
        }
        i = i + 1;
    }
    assert(presses@.take(presses@.len() as int) =~= presses@);
    kept.push(now);
    let remaining = if kept.len() >= ESCAPE_PRESSES_TO_QUIT {
        0
    } else {
        ESCAPE_PRESSES_TO_QUIT - kept.len()
    };
    if remaining == 0 {
        (EscapeOutcome::Quit, kept)
    } else {
        (EscapeOutcome::Warn { remaining }, kept)
    }
}

/// "Hit Esc N more time(s) within 5 seconds to exit."
pub fn escape_warning(remaining: usize) -> (text: String)
    ensures
        text@ == "Hit Esc "@ + decimal(remaining as nat) + " more time"@ + (if remaining == 1 {
            ""@
        } else {
            "s"@
        }) + " within 5 seconds to exit."@,
{
    let mut text = String::from_str("Hit Esc ");
    push_decimal(&mut text, remaining as u64);
    push_text(&mut text, " more time");
    if remaining == 1 {
        push_text(&mut text, "");
    } else {
        push_text(&mut text, "s");
    }
    push_text(&mut text, " within 5 seconds to exit.");
    text
}


/// With no focused root and no breadcrumb, three Esc presses within five
/// seconds quit: the first two only warn.
pub proof fn law_three_escapes_within_five_seconds_quit(first: u64, second: u64, third: u64)
    requires
        first <= second <= third,
        third - first <= ESCAPE_WINDOW_NANOS,
    ensures
        ({
            let (one, kept_one) = escape_spec(false, 0, Seq::empty(), first);
            let (two, kept_two) = escape_spec(false, 0, kept_one, second);
            let (three, _) = escape_spec(false, 0, kept_two, third);
            &&& one == EscapeOutcome::Warn { remaining: 2 }
            &&& two == EscapeOutcome::Warn { remaining: 1 }
            &&& three == EscapeOutcome::Quit
        }),
{
    reveal_with_fuel(recent_presses, 3);
    let kept_one = escape_spec(false, 0, Seq::<u64>::empty(), first).1;
    assert(kept_one =~= seq![first]);
    assert(seq![first].drop_last() =~= Seq::<u64>::empty());
    let kept_two = escape_spec(false, 0, kept_one, second).1;
    assert(kept_two =~= seq![first, second]);
    assert(seq![first, second].drop_last() =~= seq![first]);
}

/// Esc never quits while a root is focused or the tab has breadcrumbs, and
/// then forgets earlier presses.
pub proof fn law_escape_unwinds_before_quitting(
    focus_open: bool,
    breadcrumb_count: usize,
    presses: Seq<u64>,
    now: u64,
)
    requires
        focus_open || breadcrumb_count > 0,
    ensures
        escape_spec(focus_open, breadcrumb_count, presses, now).0 != EscapeOutcome::Quit,
        escape_spec(focus_open, breadcrumb_count, presses, now).1.len() == 0,
{
}

/// What a key does while the breadcrumb bar has the focus.
#[derive(Clone, Copy, Debug, PartialEq, Eq, Structural)]
pub enum BarAction {
    /// Give the focus back to the card pool.
    Leave,
    /// Give the focus back to the pool, on the first row of the card.
    LeaveToFirstRow,
    /// Move the bar's focus.
    Focus(BreadcrumbBarFocus),
    /// Remove the focused breadcrumb.
    Remove(usize),
    /// Edit the focused breadcrumb, or add one on the add position.
    Activate,
    Ignore,
}

pub fn breadcrumb_bar_key_action(key: KeyInput, focus: BreadcrumbBarFocus, breadcrumb_count: usize) -> (action: BarAction)
    ensures
        key.code == KeyCodeInput::Left ==> (action matches BarAction::Focus(f) && f.position
            <= focus.position && (focus.position > 0 ==> f.position + 1 == focus.position)),
        key.code == KeyCodeInput::Right && focus.position < breadcrumb_count ==> (action matches BarAction::Focus(f)
            && f.position == focus.position + 1),
        key.code == KeyCodeInput::Down ==> action == BarAction::LeaveToFirstRow,
        (key.code == KeyCodeInput::Delete || key.code == KeyCodeInput::Backspace) && focus.position
            < breadcrumb_count ==> action == BarAction::Remove(focus.position),
        action == match key.code {
            KeyCodeInput::Esc => BarAction::Leave,
            KeyCodeInput::Down => BarAction::LeaveToFirstRow,
            KeyCodeInput::Left => BarAction::Focus(BreadcrumbBarFocus {
                position: focus_after_previous(focus.position as nat) as usize,
            }),
            KeyCodeInput::Right => BarAction::Focus(BreadcrumbBarFocus {
                position: focus_after_next(focus.position as nat, breadcrumb_count as nat) as usize,
            }),
            KeyCodeInput::Home => BarAction::Focus(BreadcrumbBarFocus { position: 0 }),
            KeyCodeInput::End => BarAction::Focus(BreadcrumbBarFocus { position: breadcrumb_count }),
            KeyCodeInput::Delete | KeyCodeInput::Backspace => if focus.position < breadcrumb_count {
                BarAction::Remove(focus.position)
            } else {
                BarAction::Ignore
            },
            KeyCodeInput::Enter | KeyCodeInput::Char(' ') => BarAction::Activate,
            _ => BarAction::Ignore,
        },
{
    match key.code {
        KeyCodeInput::Esc => BarAction::Leave,
        KeyCodeInput::Down => BarAction::LeaveToFirstRow,
        KeyCodeInput::Left => {
            let mut moved = focus;
            moved.move_previous();
            BarAction::Focus(moved)
        },
        KeyCodeInput::Right => {
            let mut moved = focus;
            moved.move_next(breadcrumb_count);
            BarAction::Focus(moved)
        },
        KeyCodeInput::Home => BarAction::Focus(BreadcrumbBarFocus::first()),
        KeyCodeInput::End => BarAction::Focus(BreadcrumbBarFocus::add(breadcrumb_count)),
        KeyCodeInput::Delete | KeyCodeInput::Backspace => match focus.operation(breadcrumb_count) {
            Some(index) => BarAction::Remove(index),
            None => BarAction::Ignore,
        },
        KeyCodeInput::Enter | KeyCodeInput::Char(' ') => BarAction::Activate,
        _ => BarAction::Ignore,
    }
}

} // verus!
