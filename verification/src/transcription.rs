//! The transcription settings: which engine runs, the local models and
//! their downloads, and the personal dictionary.

use crate::text::{concatenated, decimal, decimal_string, entered, entered_spec, opt_text, push_str, same_text, trimmed};
use vstd::prelude::*;

verus! {

/// A size in whole megabytes (of 1 048 576 bytes), as "142 MB".
pub fn size_mb(bytes: u64) -> (r: String)
    ensures
        r@ == decimal((bytes / 1_048_576) as nat) + " MB"@,
{
    let mut out = decimal_string(bytes / 1_048_576);
    push_str(&mut out, " MB");
    out
}

/// How far a download is, in whole percent (0 while the size is unknown).
pub open spec fn percent_spec(done: nat, total: nat) -> nat {
    if total > 0 {
        done * 100 / total
    } else {
        0
    }
}

/// The percentage of a download.
pub fn download_percent(done: u64, total: u64) -> (r: u64)
    requires
        done * 100 <= u64::MAX,
    ensures
        r == percent_spec(done as nat, total as nat),
{
    if total > 0 {
        done * 100 / total
    } else {
        0
    }
}

/// Every byte is in and the file is being checked.
pub fn download_verifying(done: u64, total: u64) -> (r: bool)
    ensures
        r == (total > 0 && done >= total),
{
    total > 0 && done >= total
}

/// What a download shows: the checking label once every byte is in, else
/// the percentage.
pub fn download_label(done: u64, total: u64, verifying_label: &str) -> (r: String)
    requires
        done * 100 <= u64::MAX,
    ensures
        r@ == (if total > 0 && done >= total {
            verifying_label@
        } else {
            decimal(percent_spec(done as nat, total as nat)) + "%"@
        }),
{
    if download_verifying(done, total) {
        String::from_str(verifying_label)
    } else {
        let mut out = decimal_string(download_percent(done, total));
        push_str(&mut out, "%");
        out
    }
}

/// Which speech-to-text engine transcribes.
#[derive(Debug, Clone, Copy, PartialEq, Eq, Structural)]
pub enum SttProvider {
    /// Soniox, in the cloud.
    Soniox,
    /// A Whisper model on the device.
    WhisperLocal,
}

/// The banner that names the engine of the next note, and the reason it
/// cannot run yet, if any (both as message keys, the model id apart).
#[derive(Debug)]
pub struct EngineBanner {
    /// The engine's label key.
    pub name_key: &'static str,
    /// The local model, shown after the label when it is ready.
    pub model: Option<String>,
    /// Why it cannot run, if it cannot.
    pub blocker_key: Option<&'static str>,
}

/// A key is stored: something besides whitespace.
pub open spec fn key_stored(stored: Option<String>) -> bool {
    stored matches Some(k) && trimmed(k@).len() > 0
}

/// The cloud engine needs a key; the local one needs a chosen model that is
/// downloaded. The banner never claims an engine is ready when it is not.
pub fn engine_banner(provider: SttProvider, stored_key: &Option<String>, active_model: &str, downloaded: bool) -> (r: EngineBanner)
    ensures
        provider == SttProvider::Soniox ==> r.name_key@ == "settings-stt-cloud"@ && r.model is None && (match r.blocker_key {
            Some(b) => b@ == "stt-error-soniox-key"@ && !key_stored(*stored_key),
            None => key_stored(*stored_key),
        }),
        provider == SttProvider::WhisperLocal ==> r.name_key@ == "settings-stt-local"@ && (if active_model@.len() > 0 && downloaded {
            r.blocker_key is None && opt_text(r.model) == Some(active_model@)
        } else {
            r.model is None && r.blocker_key is Some && r.blocker_key->0@ == "stt-error-no-model"@
        }),
{
    match provider {
        SttProvider::Soniox => {
            let has_key = match stored_key {
                Some(k) => crate::text::has_text(k.as_str()),
                None => false,
            };
            EngineBanner {
                name_key: "settings-stt-cloud",
                model: None,
                blocker_key: if has_key {
                    None
                } else {
                    Some("stt-error-soniox-key")
                },
            }
        },
        SttProvider::WhisperLocal => {
            let ready = !active_model.is_empty() && downloaded;
            if ready {
                EngineBanner {
                    name_key: "settings-stt-local",
                    model: Some(String::from_str(active_model)),
                    blocker_key: None,
                }
            } else {
                EngineBanner { name_key: "settings-stt-local", model: None, blocker_key: Some("stt-error-no-model") }
            }
        },
    }
}

/// The banner's first line: the engine, and " · " and the model when one
/// is ready.
pub fn engine_label(name: &str, model: &Option<String>) -> (r: String)
    ensures
        r@ == (match model {
            Some(m) => name@ + " · "@ + m@,
            None => name@,
        }),
{
    match model {
        Some(m) => {
            let mut out = concatenated(name, " · ");
            push_str(&mut out, m.as_str());
            out
        },
        None => String::from_str(name),
    }
}

/// What the last save of the Soniox key produced: a key is never "saved"
/// on its own, it is confirmed by Soniox or refused with the reason.
#[derive(Debug)]
pub enum KeyState {
    Idle,
    Checking,
    Valid,
    Invalid(String),
}

/// The key's save button works when a key is typed and no check runs.
pub fn key_save_enabled(state: &KeyState, typed: &str) -> (r: bool)
    ensures
        r == (!(*state is Checking) && trimmed(typed@).len() > 0),
{
    match state {
        KeyState::Checking => false,
        _ => crate::text::has_text(typed),
    }
}

/// The state once Soniox answered about a key.
pub fn key_checked(outcome: Result<(), String>) -> (r: KeyState)
    ensures
        match outcome {
            Ok(()) => r is Valid,
            Err(e) => r == KeyState::Invalid(e),
        },
{
    match outcome {
        Ok(()) => KeyState::Valid,
        Err(e) => KeyState::Invalid(e),
    }
}

/// The Soniox key form: the key as typed and what the last save produced.
pub struct KeyForm {
    pub key: String,
    pub state: KeyState,
}

/// What happens to the key form: the field is edited, the save button is
/// pressed, or Soniox answers the check of a key.
#[derive(Debug)]
pub enum KeyEvent {
    Edited(String),
    SavePressed,
    Checked(Result<(), String>),
}

/// What the form asks its host to do: nothing, or save (and check) a key.
#[derive(Debug)]
pub enum KeyAction {
    Nothing,
    SaveKey(String),
}

/// The form as it opens on the stored key: nothing checked yet.
pub fn key_form_new(stored: String) -> (r: KeyForm)
    ensures
        r == (KeyForm { key: stored, state: KeyState::Idle }),
{
    KeyForm { key: stored, state: KeyState::Idle }
}

/// Whether the save button acts on this form.
pub open spec fn key_form_can_save(form: KeyForm) -> bool {
    !(form.state is Checking) && trimmed(form.key@).len() > 0
}

/// The form after one event: an edit takes the text and forgets any
/// verdict; a press that the button takes starts a check; an answer
/// becomes the verdict.
pub open spec fn key_form_next(form: KeyForm, event: KeyEvent) -> KeyForm {
    match event {
        KeyEvent::Edited(text) => KeyForm { key: text, state: KeyState::Idle },
        KeyEvent::SavePressed => if key_form_can_save(form) {
            KeyForm { key: form.key, state: KeyState::Checking }
        } else {
            form
        },
        KeyEvent::Checked(outcome) => KeyForm {
            key: form.key,
            state: match outcome {
                Ok(_) => KeyState::Valid,
                Err(e) => KeyState::Invalid(e),
            },
        },
    }
}

/// The key handed to the save for one event, if any: the typed key without
/// its surrounding whitespace, on a press that the button takes.
pub open spec fn key_form_saves(form: KeyForm, event: KeyEvent) -> Option<Seq<char>> {
    if event is SavePressed && key_form_can_save(form) {
        Some(trimmed(form.key@))
    } else {
        None
    }
}

/// The form after a run of events, one after the other.
pub open spec fn key_form_run(form: KeyForm, events: Seq<KeyEvent>) -> KeyForm
    decreases events.len(),
{
    if events.len() == 0 {
        form
    } else {
        key_form_next(key_form_run(form, events.drop_last()), events.last())
    }
}

/// Applies one event to the form and says what the host must do.
pub fn key_form_step(form: &mut KeyForm, event: KeyEvent) -> (action: KeyAction)
    ensures
        *final(form) == key_form_next(*old(form), event),
        match key_form_saves(*old(form), event) {
            Some(k) => action matches KeyAction::SaveKey(s) && s@ == k,
            None => action is Nothing,
        },
{
    match event {
        KeyEvent::Edited(text) => {
            form.key = text;
            form.state = KeyState::Idle;
            KeyAction::Nothing
        },
        KeyEvent::SavePressed => {
            if key_save_enabled(&form.state, form.key.as_str()) {
                let k = crate::text::trim(form.key.as_str());
                form.state = KeyState::Checking;
                KeyAction::SaveKey(k)
            } else {
                KeyAction::Nothing
            }
        },
        KeyEvent::Checked(outcome) => {
            form.state = key_checked(outcome);
            KeyAction::Nothing
        },
    }
}

/// Over any run of edits, presses and answers from a freshly opened form,
/// the form shows "valid" only when the last event other than presses was
/// Soniox accepting the key, "invalid" with a reason only when it was
/// Soniox refusing it with that reason, and "checking" only after a press.
pub proof fn lemma_key_form_verdicts(form: KeyForm, events: Seq<KeyEvent>)
    requires
        form.state is Idle,
    ensures
        key_form_run(form, events).state is Valid ==> exists|i: int|
            0 <= i < events.len() && events[i] == KeyEvent::Checked(Ok(()))
                && forall|j: int| i < j < events.len() ==> (#[trigger] events[j]) is SavePressed,
        forall|e: String| key_form_run(form, events).state == KeyState::Invalid(e) ==> exists|i: int|
            0 <= i < events.len() && events[i] == KeyEvent::Checked(Err(e))
                && forall|j: int| i < j < events.len() ==> (#[trigger] events[j]) is SavePressed,
        key_form_run(form, events).state is Checking ==> exists|i: int|
            0 <= i < events.len() && events[i] is SavePressed
                && forall|j: int| i < j < events.len() ==> (#[trigger] events[j]) is SavePressed,
    decreases events.len(),
{
    if events.len() > 0 {
        let before = events.drop_last();
        lemma_key_form_verdicts(form, before);
        let n = events.len() - 1;
        let prev = key_form_run(form, before);
        let g = key_form_run(form, events);
        assert(g == key_form_next(prev, events[n]));
        match events[n] {
            KeyEvent::Edited(_) => {},
            KeyEvent::Checked(outcome) => {
                match outcome {
                    Ok(u) => {
                        assert(events[n] == KeyEvent::Checked(Ok(())));
                    },
                    Err(e) => {},
                }
            },
            KeyEvent::SavePressed => {
                if key_form_can_save(prev) {
                    assert(g.state is Checking);
                } else {
                    assert(g == prev);
                    if g.state is Valid {
                        let i = choose|i: int| 0 <= i < before.len() && before[i] == KeyEvent::Checked(Ok(()))
                            && forall|j: int| i < j < before.len() ==> (#[trigger] before[j]) is SavePressed;
                        assert(events[i] == before[i]);
                        assert forall|j: int| i < j < events.len() implies (#[trigger] events[j]) is SavePressed by {
                            if j < n {
                                assert(events[j] == before[j]);
                            }
                        }
                    }
                    assert forall|e: String| g.state == KeyState::Invalid(e) implies exists|i: int|
                        0 <= i < events.len() && events[i] == KeyEvent::Checked(Err(e))
                            && forall|j: int| i < j < events.len() ==> (#[trigger] events[j]) is SavePressed by {
                        let i = choose|i: int| 0 <= i < before.len() && before[i] == KeyEvent::Checked(Err(e))
                            && forall|j: int| i < j < before.len() ==> (#[trigger] before[j]) is SavePressed;
                        assert(events[i] == before[i]);
                        assert forall|j: int| i < j < events.len() implies (#[trigger] events[j]) is SavePressed by {
                            if j < n {
                                assert(events[j] == before[j]);
                            }
                        }
                    }
                    if g.state is Checking {
                        let i = choose|i: int| 0 <= i < before.len() && before[i] is SavePressed
                            && forall|j: int| i < j < before.len() ==> (#[trigger] before[j]) is SavePressed;
                        assert(events[i] == before[i]);
                        assert forall|j: int| i < j < events.len() implies (#[trigger] events[j]) is SavePressed by {
                            if j < n {
                                assert(events[j] == before[j]);
                            }
                        }
                    }
                }
            },
        }
    }
}

/// While a check runs, and while the field is blank, a press changes
/// nothing and saves nothing; an edit always clears the verdict.
pub proof fn lemma_key_form_guards(form: KeyForm, text: String)
    ensures
        (form.state is Checking || trimmed(form.key@).len() == 0) ==> key_form_next(form, KeyEvent::SavePressed) == form
            && key_form_saves(form, KeyEvent::SavePressed) is None,
        key_form_next(form, KeyEvent::Edited(text)).state is Idle,
        key_form_next(form, KeyEvent::Edited(text)).key == text,
{
}

/// A dictionary entry from the two fields: the correct spelling is
/// required; what is heard defaults to it.
pub open spec fn dictionary_entry_spec(heard: Seq<char>, correct: Seq<char>) -> Option<(Seq<char>, Seq<char>)> {
    match entered_spec(correct) {
        Some(target) => match entered_spec(heard) {
            Some(source) => Some((source, target)),
            None => Some((target, target)),
        },
        None => None,
    }
}

/// The (heard, correct) pair to add, or `None` when no correct spelling
/// was typed.
pub fn dictionary_entry(heard: &str, correct: &str) -> (r: Option<(String, String)>)
    ensures
        match r {
            Some((h, c)) => dictionary_entry_spec(heard@, correct@) == Some((h@, c@)),
            None => dictionary_entry_spec(heard@, correct@) is None,
        },
{
    match entered(correct) {
        Some(target) => match entered(heard) {
            Some(source) => Some((source, target)),
            None => {
                let source = String::from_str(target.as_str());
                Some((source, target))
            },
        },
        None => None,
    }
}

/// A row shows what is heard under the correct spelling only when they
/// differ.
pub fn shows_heard(heard: &str, correct: &str) -> (r: bool)
    ensures
        r == (heard@ != correct@),
{
    !same_text(heard, correct)
}

/// Removes the entry at `idx`; an index past the end (a stale tap) changes
/// nothing.
pub fn remove_entry<T>(entries: &mut Vec<T>, idx: usize)
    ensures
        idx < old(entries)@.len() ==> final(entries)@ == old(entries)@.remove(idx as int),
        idx >= old(entries)@.len() ==> final(entries)@ == old(entries)@,
{
    if idx < entries.len() {
        entries.remove(idx);
    }
}

/// What a local model's row offers.
#[derive(Debug, Clone, Copy, PartialEq, Eq, Structural)]
pub enum ModelRow {
    /// Its download is running: the progress shows.
    Downloading,
    /// It is on the device and the engine uses it.
    Active,
    /// It is on the device: it can be chosen or deleted.
    Downloaded,
    /// It can be downloaded (after a confirmation).
    Offer,
    /// Another download runs, or the confirmation is open: no button.
    Quiet,
}

/// The state of a model's row.
pub fn model_row(downloading_this: bool, downloaded: bool, is_active_model: bool, any_downloading: bool, confirming: bool) -> (r: ModelRow)
    ensures
        r == (if downloading_this {
            ModelRow::Downloading
        } else if downloaded {
            if is_active_model { ModelRow::Active } else { ModelRow::Downloaded }
        } else if !any_downloading && !confirming {
            ModelRow::Offer
        } else {
            ModelRow::Quiet
        }),
{
    if downloading_this {
        ModelRow::Downloading
    } else if downloaded {
        if is_active_model {
            ModelRow::Active
        } else {
            ModelRow::Downloaded
        }
    } else if !any_downloading && !confirming {
        ModelRow::Offer
    } else {
        ModelRow::Quiet
    }
}

/// Deleting the model in use also clears the choice, so the engine never
/// points at a missing file.
pub fn clears_choice_on_delete(stored: &Option<String>, deleted: &str) -> (r: bool)
    ensures
        r == (opt_text(*stored) == Some(deleted@)),
{
    match stored {
        Some(s) => same_text(s.as_str(), deleted),
        None => false,
    }
}

} // verus!

verus! {

/// The word of a clip's transcript that is highlighted: the playhead's
/// word while that clip plays, none otherwise.
pub fn highlighted_word(playing_this: bool, active: Option<usize>) -> (r: Option<usize>)
    ensures
        r == (if playing_this { active } else { None }),
{
    if playing_this {
        active
    } else {
        None
    }
}

/// Whether the word at `index` is the highlighted one.
pub fn word_is_active(active: Option<usize>, index: usize) -> (r: bool)
    ensures
        r == (active == Some(index)),
{
    match active {
        Some(a) => a == index,
        None => false,
    }
}

} // verus!
