//! The voice capsule that replaces the composer while a take is live: its
//! timer, its buttons, and where a finished take goes.

use crate::text::{concatenated, decimal, decimal_string, push_char, push_str, push_two_digits, two_digits};
use vstd::prelude::*;

verus! {

/// Where the recorder stands.
#[derive(Debug)]
pub enum RecordingState {
    Idle,
    Recording,
    Paused,
    /// A take was saved to this file.
    Stopped(String),
    Transcribing,
    Transcribed(String),
    Error(String),
}

/// The capsule's timer: minutes, a colon and two-digit seconds.
pub open spec fn timer_spec(secs: nat) -> Seq<char> {
    decimal(secs / 60) + seq![':'] + two_digits(secs % 60)
}

/// The timer text for a take of `secs` seconds.
pub fn timer_text(secs: u32) -> (r: String)
    ensures
        r@ == timer_spec(secs as nat),
{
    let mut out = decimal_string((secs / 60) as u64);
    push_char(&mut out, ':');
    push_two_digits(&mut out, secs % 60);
    out
}

/// What the capsule's timer button reads: the transcribing label, the
/// paused label and the timer, or the timer alone.
pub fn capsule_label(state: &RecordingState, timer: &str, paused_label: &str, transcribing_label: &str) -> (r: String)
    ensures
        r@ == (match *state {
            RecordingState::Transcribing => transcribing_label@,
            RecordingState::Paused => paused_label@ + " · "@ + timer@,
            _ => timer@,
        }),
{
    match state {
        RecordingState::Transcribing => String::from_str(transcribing_label),
        RecordingState::Paused => {
            let mut out = concatenated(paused_label, " · ");
            push_str(&mut out, timer);
            out
        },
        _ => String::from_str(timer),
    }
}

/// What the timer button does.
#[derive(Debug, Clone, Copy, PartialEq, Eq, Structural)]
pub enum TimerAction {
    /// Nothing: the button is disabled while transcribing.
    Nothing,
    Resume,
    Pause,
}

/// A paused take resumes, a live one pauses.
pub fn timer_pressed(state: &RecordingState) -> (r: TimerAction)
    ensures
        r == (match *state {
            RecordingState::Transcribing => TimerAction::Nothing,
            RecordingState::Paused => TimerAction::Resume,
            _ => TimerAction::Pause,
        }),
{
    match state {
        RecordingState::Transcribing => TimerAction::Nothing,
        RecordingState::Paused => TimerAction::Resume,
        _ => TimerAction::Pause,
    }
}

/// The state after the recorder was asked to start or resume a take.
pub fn recorder_started(outcome: Result<(), String>) -> (r: RecordingState)
    ensures
        match outcome {
            Ok(()) => r is Recording,
            Err(e) => r == RecordingState::Error(e),
        },
{
    match outcome {
        Ok(()) => RecordingState::Recording,
        Err(e) => RecordingState::Error(e),
    }
}

/// What the cancel button does before the capsule returns to idle.
#[derive(Debug, Clone, Copy, PartialEq, Eq, Structural)]
pub enum CancelAction {
    /// A note's transcription job is being followed: stop following it (it
    /// finishes in the background under the note's banner).
    StopFollowingJob,
    /// A dictation is being transcribed: drop its result when it comes.
    DropTranscript,
    /// A take is live: throw it away.
    DiscardTake,
}

/// The cancel button's action.
pub fn cancel_pressed(following_job: bool, state: &RecordingState) -> (r: CancelAction)
    ensures
        r == (if following_job {
            CancelAction::StopFollowingJob
        } else if *state is Transcribing {
            CancelAction::DropTranscript
        } else {
            CancelAction::DiscardTake
        }),
{
    if following_job {
        CancelAction::StopFollowingJob
    } else {
        match state {
            RecordingState::Transcribing => CancelAction::DropTranscript,
            _ => CancelAction::DiscardTake,
        }
    }
}

/// Where a finished take goes.
#[derive(Debug)]
pub enum FinishRoute {
    /// Transcribe the throwaway file for the field; the dictation started
    /// under `generation`, and the arrow sends the text once it is in.
    Dictate { generation: u64, send_when_done: bool },
    /// Keep the clip and hand it to the note's transcription job (`None`:
    /// the note is not created yet and its own banner takes over).
    KeepClip { note_id: Option<String> },
}

/// The square always transcribes into the field; the arrow does too in a
/// chat (or wherever only a transcript is wanted), and in a note keeps the
/// clip. A new dictation takes the next generation, so that the result of
/// a dropped one is recognised and ignored.
pub fn finish_route(send: bool, transcribe_only: bool, generation: u64, current_note: &Option<String>) -> (r: FinishRoute)
    requires
        generation < u64::MAX,
    ensures
        (transcribe_only || !send) ==> r == (FinishRoute::Dictate { generation: (generation + 1) as u64, send_when_done: send }),
        !(transcribe_only || !send) ==> match r {
            FinishRoute::KeepClip { note_id } => crate::text::opt_text(note_id) == (match *current_note {
                Some(n) => if n@.len() > 0 { Some(n@) } else { None },
                None => None,
            }),
            _ => false,
        },
{
    if transcribe_only || !send {
        return FinishRoute::Dictate { generation: generation + 1, send_when_done: send };
    }
    let note_id = match current_note {
        Some(n) => if n.as_str().is_empty() {
            None
        } else {
            Some(String::from_str(n.as_str()))
        },
        None => None,
    };
    FinishRoute::KeepClip { note_id }
}

/// After a kept clip: transcribing while its job is followed, idle
/// otherwise.
pub fn after_keep(following_job: bool) -> (r: RecordingState)
    ensures
        if following_job { r is Transcribing } else { r is Idle },
{
    if following_job {
        RecordingState::Transcribing
    } else {
        RecordingState::Idle
    }
}

/// A dictation's transcript lands only if no newer dictation was started
/// (or the old one dropped) meanwhile; `None` leaves the state alone.
pub fn transcript_arrived(current_generation: u64, generation: u64, result: Result<String, String>) -> (r: Option<RecordingState>)
    ensures
        current_generation != generation ==> r is None,
        current_generation == generation ==> match result {
            Ok(t) => r == Some(RecordingState::Transcribed(t)),
            Err(e) => r == Some(RecordingState::Error(e)),
        },
{
    if current_generation != generation {
        return None;
    }
    match result {
        Ok(t) => Some(RecordingState::Transcribed(t)),
        Err(e) => Some(RecordingState::Error(e)),
    }
}

/// The record button of the plain recording screen stops a live take and
/// starts one otherwise.
pub fn record_button_stops(state: &RecordingState) -> (r: bool)
    ensures
        r == (*state is Recording),
{
    match state {
        RecordingState::Recording => true,
        _ => false,
    }
}

/// The status line of the plain recording screen.
pub open spec fn recording_status_spec(state: RecordingState, file: Seq<char>) -> Seq<char> {
    match state {
        RecordingState::Idle => "Appuyez pour enregistrer"@,
        RecordingState::Recording => "Enregistrement..."@,
        RecordingState::Paused => "Enregistrement..."@,
        RecordingState::Stopped(_) => "Sauvegardé : "@ + file,
        RecordingState::Transcribing => "Transcription..."@,
        RecordingState::Transcribed(t) => t@,
        RecordingState::Error(e) => "Erreur : "@ + e@,
    }
}

/// The line under the record button.
pub fn recording_status(state: &RecordingState, file: &str) -> (r: String)
    ensures
        r@ == recording_status_spec(*state, file@),
{
    match state {
        RecordingState::Idle => String::from_str("Appuyez pour enregistrer"),
        RecordingState::Recording => String::from_str("Enregistrement..."),
        RecordingState::Paused => String::from_str("Enregistrement..."),
        RecordingState::Stopped(_) => concatenated("Sauvegardé : ", file),
        RecordingState::Transcribing => String::from_str("Transcription..."),
        RecordingState::Transcribed(t) => String::from_str(t.as_str()),
        RecordingState::Error(e) => concatenated("Erreur : ", e.as_str()),
    }
}

/// The bar shows the dictate button (and the last error) when no take is
/// under way: idle, failed, or transcribed.
pub fn is_idle(state: &RecordingState) -> (r: bool)
    ensures
        r == (*state is Idle || *state is Error || *state is Transcribed),
{
    match state {
        RecordingState::Idle | RecordingState::Error(_) | RecordingState::Transcribed(_) => true,
        _ => false,
    }
}

/// The banner of a running transcription job: its label, then the time
/// it has run as "m:ss".
pub fn elapsed_label(label: &str, elapsed_s: u32) -> (r: String)
    ensures
        r@ == label@ + " · "@ + timer_spec(elapsed_s as nat),
{
    let mut out = concatenated(label, " · ");
    let t = timer_text(elapsed_s);
    push_str(&mut out, t.as_str());
    out
}

} // verus!

verus! {

/// The transcription generation after a cancel: a dropped dictation moves
/// it on by one, so that its result is ignored when it comes; the other
/// actions keep it.
pub open spec fn generation_after_cancel(action: CancelAction, generation: int) -> int {
    if action == CancelAction::DropTranscript {
        generation + 1
    } else {
        generation
    }
}

/// Where the capsule stands after the cancel button: always back to idle,
/// with the generation as `generation_after_cancel` gives it. (The take's
/// timer goes back to zero as well.)
pub fn after_cancel(action: CancelAction, generation: u64) -> (r: (RecordingState, u64))
    requires
        generation < u64::MAX,
    ensures
        r.0 is Idle,
        r.1 == generation_after_cancel(action, generation as int),
{
    match action {
        CancelAction::DropTranscript => (RecordingState::Idle, generation + 1),
        _ => (RecordingState::Idle, generation),
    }
}

/// A dictation dropped by cancel never lands: the generation it was
/// started under is no longer the current one, so `transcript_arrived`
/// leaves the state alone when its result comes.
pub proof fn lemma_cancel_drops_the_pending_transcript(generation: int)
    ensures
        generation_after_cancel(CancelAction::DropTranscript, generation) != generation,
{
}

} // verus!
