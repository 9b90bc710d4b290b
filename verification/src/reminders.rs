//! Reminders a note's text suggests: when to look for them, and the
//! defaults offered when one is confirmed.

use crate::dates::clock_24;
use crate::text::{push_char, push_two_digits, same_text, trim, trimmed};
use chrono::Timelike;
use vstd::prelude::*;

verus! {

/// What chrono's `NaiveTime::parse_from_str` gives for `text` read with
/// `fmt`, as (hour, minute); `None` when it refuses the text.
pub uninterp spec fn parsed_time(text: Seq<char>, fmt: Seq<char>) -> Option<(u32, u32)>;

/// Reads a time of day with chrono's `NaiveTime::parse_from_str`.
///
/// Trusted: the result is the named `parsed_time(text, fmt)`, with the
/// hour below 24 and the minute below 60 as chrono's `Timelike`
/// documentation gives.
#[verifier::external_body]
fn parse_time(text: &str, fmt: &str) -> (r: Option<(u32, u32)>)
    ensures
        r == parsed_time(text@, fmt@),
        r matches Some((h, m)) ==> h < 24 && m < 60,
{
    match chrono::NaiveTime::parse_from_str(text, fmt) {
        Ok(t) => Some((t.hour(), t.minute())),
        Err(_) => None,
    }
}

/// The end offered for a reminder starting at `start`: one hour later
/// (wrapping past midnight, as chrono adds to a time of day), or 10:00 when
/// the start is not a `%H:%M` time.
pub open spec fn default_end_spec(start: Seq<char>) -> Seq<char> {
    match parsed_time(start, "%H:%M"@) {
        Some((h, m)) => clock_24(((h + 1) % 24) as nat, m as nat),
        None => seq!['1', '0', ':', '0', '0'],
    }
}

/// The end time offered when "add an end" is pressed.
pub fn default_end(start: &str) -> (r: String)
    ensures
        r@ == default_end_spec(start@),
{
    let mut out = String::new();
    match parse_time(start, "%H:%M") {
        Some((h, m)) => {
            push_two_digits(&mut out, (h + 1) % 24);
            push_char(&mut out, ':');
            push_two_digits(&mut out, m);
            assert(out@ =~= default_end_spec(start@));
        },
        None => {
            push_char(&mut out, '1');
            push_char(&mut out, '0');
            push_char(&mut out, ':');
            push_char(&mut out, '0');
            push_char(&mut out, '0');
            assert(out@ =~= default_end_spec(start@));
        },
    }
    out
}

/// A step of the reminder detection that follows each edit.
#[derive(Clone, Copy, Debug, PartialEq, Eq, Structural)]
pub enum DetectStep {
    /// Nothing to do.
    Idle,
    /// The text is too short: drop the suggestions shown.
    Clear,
    /// The text is the stored one and its reminder exists: remember it as
    /// checked without asking again.
    MarkChecked,
    /// Wait a moment, then look for reminders in this text.
    Schedule,
}

/// What an edit to `content` starts: clear the suggestions when fewer than
/// eight characters remain once trimmed (if any are shown); nothing when
/// this text was already checked; for the stored text of a saved note that
/// already has an active reminder, mark it checked; otherwise schedule a
/// detection. `has_active_reminder` is only consulted for the stored text of
/// a saved note.
pub open spec fn detect_step_spec(
    content: Seq<char>,
    checked: Seq<char>,
    showing: bool,
    note_saved: bool,
    initial: Seq<char>,
    has_active_reminder: bool,
) -> DetectStep {
    if trimmed(content).len() < 8 {
        if showing {
            DetectStep::Clear
        } else {
            DetectStep::Idle
        }
    } else if checked == content {
        DetectStep::Idle
    } else if content == initial && note_saved && has_active_reminder {
        DetectStep::MarkChecked
    } else {
        DetectStep::Schedule
    }
}

/// Decides what an edit to the note's text starts.
pub fn detect_step(
    content: &str,
    checked: &str,
    showing: bool,
    note_saved: bool,
    initial: &str,
    has_active_reminder: bool,
) -> (r: DetectStep)
    ensures
        r == detect_step_spec(content@, checked@, showing, note_saved, initial@, has_active_reminder),
{
    let t = trim(content);
    let n = crate::text::chars_of(t.as_str());
    if n.len() < 8 {
        return if showing {
            DetectStep::Clear
        } else {
            DetectStep::Idle
        };
    }
    if same_text(checked, content) {
        return DetectStep::Idle;
    }
    if same_text(content, initial) && note_saved && has_active_reminder {
        return DetectStep::MarkChecked;
    }
    DetectStep::Schedule
}

/// After the pause, a scheduled detection of `scheduled` runs only if the
/// text has not changed since, was not checked meanwhile, and no detection
/// is already running.
pub fn detection_still_due(latest: &str, scheduled: &str, checked: &str, detecting: bool) -> (r: bool)
    ensures
        r == (latest@ == scheduled@ && checked@ != scheduled@ && !detecting),
{
    if !same_text(latest, scheduled) {
        return false;
    }
    if same_text(checked, scheduled) || detecting {
        return false;
    }
    true
}

/// The indices below `n`, in order, of the suggestions still to offer: all
/// of them for an unsaved note, otherwise those whose reminder does not
/// exist yet (`exists[i]`).
pub open spec fn pending_upto(note_saved: bool, exists: Seq<bool>, n: int) -> Seq<usize>
    decreases n,
{
    if n <= 0 {
        Seq::empty()
    } else {
        let before = pending_upto(note_saved, exists, n - 1);
        if !note_saved || !exists[n - 1] {
            before.push((n - 1) as usize)
        } else {
            before
        }
    }
}

/// The suggestions still to offer, by index into the detected list.
pub fn pending_suggestions(note_saved: bool, exists: &Vec<bool>) -> (r: Vec<usize>)
    ensures
        r@ == pending_upto(note_saved, exists@, exists@.len() as int),
{
    let mut out: Vec<usize> = Vec::new();
    let mut i: usize = 0;
    while i < exists.len()
        invariant
            i <= exists@.len(),
            out@ == pending_upto(note_saved, exists@, i as int),
        decreases exists@.len() - i,
    {
        if !note_saved || !exists[i] {
            out.push(i);
        }
        i += 1;
    }
    out
}

/// Whether index `i` is among the pending suggestions below `n`.
pub proof fn lemma_pending_members(note_saved: bool, exists: Seq<bool>, n: int, i: int)
    requires
        0 <= n <= exists.len(),
        exists.len() <= usize::MAX,
    ensures
        0 <= i < n ==> (pending_upto(note_saved, exists, n).contains(i as usize) <==> (!note_saved || !exists[i])),
        forall|k: int| 0 <= k < pending_upto(note_saved, exists, n).len() ==> #[trigger] pending_upto(note_saved, exists, n)[k] < n,
    decreases n,
{
    if n > 0 {
        lemma_pending_members(note_saved, exists, n - 1, i);
        let before = pending_upto(note_saved, exists, n - 1);
        if !note_saved || !exists[n - 1] {
            let after = before.push((n - 1) as usize);
            if 0 <= i < n - 1 && before.contains(i as usize) {
                let k = choose|k: int| 0 <= k < before.len() && before[k] == i as usize;
                assert(after[k] == i as usize);
            }
            if i == n - 1 {
                assert(after[before.len() as int] == i as usize);
            }
            if 0 <= i < n - 1 && after.contains(i as usize) {
                let k = choose|k: int| 0 <= k < after.len() && after[k] == i as usize;
                if k < before.len() {
                    assert(before[k] == i as usize);
                } else {
                    assert(after[k] == (n - 1) as usize);
                }
            }
        } else {
            if i == n - 1 && before.contains(i as usize) {
                let k = choose|k: int| 0 <= k < before.len() && before[k] == i as usize;
                assert(before[k] < n - 1);
            }
        }
    }
}

/// Whether a stored reminder is still active.
pub fn is_active(state: &str) -> (r: bool)
    ensures
        r == (state@ == "active"@),
{
    same_text(state, "active")
}

} // verus!

verus! {

/// What an edit starts, for every text: a text shorter than eight
/// characters once trimmed is never looked at; a text already checked is
/// not looked at again; otherwise it is looked at for reminders, except
/// that the stored text of a saved note that already has an active
/// reminder is only marked checked; with no active reminder it is always
/// looked at.
pub proof fn lemma_detection_is_scheduled(
    content: Seq<char>,
    checked: Seq<char>,
    showing: bool,
    note_saved: bool,
    initial: Seq<char>,
    has_active_reminder: bool,
)
    ensures
        trimmed(content).len() < 8 ==> detect_step_spec(content, checked, showing, note_saved, initial, has_active_reminder)
            == (if showing { DetectStep::Clear } else { DetectStep::Idle }),
        trimmed(content).len() >= 8 && checked == content ==> detect_step_spec(content, checked, showing, note_saved, initial, has_active_reminder)
            == DetectStep::Idle,
        detect_step_spec(content, checked, showing, note_saved, initial, has_active_reminder) == DetectStep::MarkChecked
            ==> has_active_reminder && note_saved && content == initial && checked != content,
        trimmed(content).len() >= 8 && checked != content && !has_active_reminder
            ==> detect_step_spec(content, checked, showing, note_saved, initial, has_active_reminder) == DetectStep::Schedule,
        trimmed(content).len() >= 8 && checked != content && !(content == initial && note_saved)
            ==> detect_step_spec(content, checked, showing, note_saved, initial, has_active_reminder) == DetectStep::Schedule,
{
}

} // verus!
