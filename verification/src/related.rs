//! The related notes under a note: a press held long enough opens a row's
//! menu (pin, dismiss), a short tap opens the note.

use crate::text::{opt_text, same_text};
use vstd::prelude::*;

verus! {

/// The rows' shared press state: the press under way (the row's key and
/// the press's number), the last number given, the row whose menu is open,
/// and whether the click that ends a long press must be swallowed.
#[derive(Debug)]
pub struct PressState {
    pub pressed: Option<(String, u64)>,
    pub seq: u64,
    pub menu_for: Option<String>,
    pub suppress_click: bool,
}

/// What happens to a row.
#[derive(Debug)]
pub enum PressEvent {
    /// A pointer went down on the row `key`; only a row with stored links
    /// (`actionable`) has a menu.
    Down { key: String, actionable: bool },
    /// The long-press delay of press `seq` on `key` ran out.
    TimerFired { key: String, seq: u64 },
    /// The pointer went up, was cancelled or left the row.
    Released,
    /// The row was clicked.
    Clicked,
}

/// What the caller does after a step.
#[derive(Debug)]
pub enum PressAction {
    Nothing,
    /// Wait the long-press delay, then report `TimerFired` with these.
    StartTimer { key: String, seq: u64 },
    /// Open the row's note (coming back to this note afterwards).
    OpenNote,
}

/// A press as plain values.
pub open spec fn press_view(p: Option<(String, u64)>) -> Option<(Seq<char>, u64)> {
    match p {
        Some((k, s)) => Some((k@, s)),
        None => None,
    }
}

/// The state as plain values.
pub open spec fn state_view(s: PressState) -> (Option<(Seq<char>, u64)>, u64, Option<Seq<char>>, bool) {
    (press_view(s.pressed), s.seq, opt_text(s.menu_for), s.suppress_click)
}

/// The next press number, wrapping past the largest.
pub open spec fn next_seq(seq: u64) -> u64 {
    if seq == u64::MAX {
        0
    } else {
        (seq + 1) as u64
    }
}

/// The next state and the action, as plain values.
pub open spec fn press_next(s: PressState, e: PressEvent) -> ((Option<(Seq<char>, u64)>, u64, Option<Seq<char>>, bool), int) {
    let v = state_view(s);
    match e {
        PressEvent::Down { key, actionable } => if actionable {
            ((Some((key@, next_seq(s.seq))), next_seq(s.seq), v.2, v.3), 1)
        } else {
            (v, 0)
        },
        PressEvent::TimerFired { key, seq } => if press_view(s.pressed) == Some((key@, seq)) {
            ((None, v.1, Some(key@), true), 0)
        } else {
            (v, 0)
        },
        PressEvent::Released => ((None, v.1, v.2, v.3), 0),
        PressEvent::Clicked => if s.suppress_click {
            ((v.0, v.1, v.2, false), 0)
        } else if s.menu_for is Some {
            ((v.0, v.1, None, v.3), 0)
        } else {
            (v, 2)
        },
    }
}

/// The action's kind: nothing, a timer, or opening the note.
pub open spec fn action_kind(a: PressAction) -> int {
    match a {
        PressAction::Nothing => 0,
        PressAction::StartTimer { .. } => 1,
        PressAction::OpenNote => 2,
    }
}

/// One step of a row's press handling.
pub fn press_step(s: PressState, e: PressEvent) -> (r: (PressState, PressAction))
    ensures
        (state_view(r.0), action_kind(r.1)) == press_next(s, e),
        r.1 matches PressAction::StartTimer { key, seq } ==> press_view(r.0.pressed) == Some((key@, seq)),
{
    let PressState { pressed, seq, menu_for, suppress_click } = s;
    match e {
        PressEvent::Down { key, actionable } => {
            if !actionable {
                return (PressState { pressed, seq, menu_for, suppress_click }, PressAction::Nothing);
            }
            let n = seq.wrapping_add(1);
            let timer_key = String::from_str(key.as_str());
            (
                PressState { pressed: Some((key, n)), seq: n, menu_for, suppress_click },
                PressAction::StartTimer { key: timer_key, seq: n },
            )
        },
        PressEvent::TimerFired { key, seq: fired } => {
            let hit = match &pressed {
                Some((k, n)) => *n == fired && same_text(k.as_str(), key.as_str()),
                None => false,
            };
            if hit {
                (PressState { pressed: None, seq, menu_for: Some(key), suppress_click: true }, PressAction::Nothing)
            } else {
                (PressState { pressed, seq, menu_for, suppress_click }, PressAction::Nothing)
            }
        },
        PressEvent::Released => (PressState { pressed: None, seq, menu_for, suppress_click }, PressAction::Nothing),
        PressEvent::Clicked => {
            if suppress_click {
                (PressState { pressed, seq, menu_for, suppress_click: false }, PressAction::Nothing)
            } else if menu_for.is_some() {
                (PressState { pressed, seq, menu_for: None, suppress_click }, PressAction::Nothing)
            } else {
                (PressState { pressed, seq, menu_for, suppress_click }, PressAction::OpenNote)
            }
        },
    }
}

/// A press released before its delay ran out never opens the menu: the
/// timer of that press then finds no press under way.
pub proof fn lemma_released_press_opens_nothing(s: PressState, key: String, seq: u64)
    requires
        s.pressed is None,
    ensures
        press_next(s, PressEvent::TimerFired { key, seq }).0 == state_view(s),
{
}

/// The click that ends a long press does not open the note: the press
/// opened the menu and marked that click to be swallowed.
pub proof fn lemma_long_press_click_is_swallowed(s: PressState, key: String, seq: u64)
    requires
        press_view(s.pressed) == Some((key@, seq)),
    ensures
        press_next(s, PressEvent::TimerFired { key, seq }).0.2 == Some(key@),
        press_next(s, PressEvent::TimerFired { key, seq }).0.3,
        ({
            let after = press_next(s, PressEvent::TimerFired { key, seq }).0;
            let s2 = PressState {
                pressed: None,
                seq: s.seq,
                menu_for: Some(key),
                suppress_click: true,
            };
            state_view(s2) == after && press_next(s2, PressEvent::Clicked).1 == 0
        }),
{
}

/// What a link row's second line shows: why the notes are linked, else the
/// note's date.
pub fn link_subtitle(why: Option<String>, date: String) -> (r: String)
    ensures
        r@ == (match why {
            Some(w) => w@,
            None => date@,
        }),
{
    match why {
        Some(w) => w,
        None => date,
    }
}

/// The state a pin toggle stores for a link: a pinned link goes back to
/// active, an active one is pinned.
pub fn pin_toggle_state(pinned: bool) -> (r: &'static str)
    ensures
        r@ == (if pinned { "active"@ } else { "pinned"@ }),
{
    if pinned {
        "active"
    } else {
        "pinned"
    }
}

/// The state that hides a link.
pub fn dismissed_state() -> (r: &'static str)
    ensures
        r@ == "dismissed"@,
{
    "dismissed"
}

} // verus!
