//! The note screen's decisions: what to save when it closes, how to take in
//! a newer version from another device, when to ask for a title, and how
//! texts are put together.

use crate::text::{copy_texts, opt_text, push_char, push_str, same_opt_text, same_text, same_texts, texts, trim, trimmed};
use vstd::prelude::*;
use vstd::string::StringSliceAdditionalSpecFns;

verus! {

/// What the note screen holds when it closes.
#[derive(Debug)]
pub struct Draft {
    /// The stored note's id; empty when the note was never saved.
    pub note_id: String,
    pub title: String,
    pub content: String,
    pub tags: Vec<String>,
    /// The folder the note is filed in now.
    pub folder: Option<String>,
    /// Title, content and tags as last loaded or saved.
    pub base_title: String,
    pub base_content: String,
    pub base_tags: Vec<String>,
    /// The folder the note was in when the screen opened.
    pub orig_folder: Option<String>,
    /// A recording is waiting to be attached.
    pub has_pending_audio: bool,
    /// The note was deleted from this screen.
    pub deleted: bool,
    /// The stored note no longer exists (deleted elsewhere meanwhile).
    pub note_gone: bool,
}

/// What closing the note screen does with the draft.
#[derive(Clone, Copy, Debug, PartialEq, Eq, Structural)]
pub enum CloseAction {
    /// Nothing to save.
    Skip,
    /// Store a new note (with the waiting recording, if any).
    Create,
    /// Write the changes into the stored note.
    Update,
}

/// Something differs from what was loaded: title, content, tags, folder, or
/// a recording waiting.
pub open spec fn draft_changed(d: Draft) -> bool {
    ||| d.title@ != d.base_title@
    ||| d.content@ != d.base_content@
    ||| texts(d.tags@) != texts(d.base_tags@)
    ||| opt_text(d.folder) != opt_text(d.orig_folder)
    ||| d.has_pending_audio
}

/// What closing does: nothing for a deleted note or one gone meanwhile,
/// nothing for an empty new note without recording, nothing for a stored
/// note emptied of title and content or left unchanged; otherwise create
/// the new note or update the stored one.
pub open spec fn close_action_spec(d: Draft) -> CloseAction {
    let is_new = d.note_id@.len() == 0;
    if d.deleted {
        CloseAction::Skip
    } else if !is_new && d.note_gone {
        CloseAction::Skip
    } else if is_new && d.content@.len() == 0 && !d.has_pending_audio {
        CloseAction::Skip
    } else if !is_new && d.title@.len() == 0 && d.content@.len() == 0 {
        CloseAction::Skip
    } else if !is_new && !draft_changed(d) {
        CloseAction::Skip
    } else if is_new {
        CloseAction::Create
    } else {
        CloseAction::Update
    }
}

/// Decides what closing the note screen does with `d`.
pub fn close_action(d: &Draft) -> (r: CloseAction)
    ensures
        r == close_action_spec(*d),
{
    let is_new = d.note_id.as_str().is_empty();
    if d.deleted {
        return CloseAction::Skip;
    }
    if !is_new && d.note_gone {
        return CloseAction::Skip;
    }
    if is_new && d.content.as_str().is_empty() && !d.has_pending_audio {
        return CloseAction::Skip;
    }
    if !is_new && d.title.as_str().is_empty() && d.content.as_str().is_empty() {
        return CloseAction::Skip;
    }
    let changed = !same_text(d.title.as_str(), d.base_title.as_str())
        || !same_text(d.content.as_str(), d.base_content.as_str())
        || !same_texts(&d.tags, &d.base_tags)
        || !same_opt_text(&d.folder, &d.orig_folder)
        || d.has_pending_audio;
    if !is_new && !changed {
        return CloseAction::Skip;
    }
    if is_new {
        CloseAction::Create
    } else {
        CloseAction::Update
    }
}

/// The stored version of an open note, as another device left it.
#[derive(Debug)]
pub struct StoredNote {
    pub title: Option<String>,
    pub content: String,
    pub tags: Vec<String>,
}

/// What to do when synced data may have changed the open note.
#[derive(Clone, Copy, Debug, PartialEq, Eq, Structural)]
pub enum PeerMerge {
    /// Nothing new: keep the editor as it is.
    Keep,
    /// The stored note changed while the user was editing: offer to load it.
    Offer,
    /// The stored note changed and nothing was edited: load it into the
    /// editor and take it as the new base.
    Apply,
}

/// The stored title, the empty text when there is none.
pub open spec fn stored_title(s: StoredNote) -> Seq<char> {
    match s.title {
        Some(t) => t@,
        None => Seq::empty(),
    }
}

/// The decision for an open note `d` and its stored version `fresh`
/// (`None` when it could not be read): keep for an unsaved or deleted note
/// or when nothing changed, offer the update when the editor was touched,
/// apply it otherwise.
pub open spec fn peer_merge_spec(d: Draft, fresh: Option<StoredNote>) -> PeerMerge {
    if d.note_id@.len() == 0 || d.deleted {
        PeerMerge::Keep
    } else {
        match fresh {
            None => PeerMerge::Keep,
            Some(s) => {
                let changed = stored_title(s) != d.base_title@ || s.content@ != d.base_content@
                    || texts(s.tags@) != texts(d.base_tags@);
                let dirty = d.title@ != d.base_title@ || d.content@ != d.base_content@ || texts(
                    d.tags@,
                ) != texts(d.base_tags@);
                if !changed {
                    PeerMerge::Keep
                } else if dirty {
                    PeerMerge::Offer
                } else {
                    PeerMerge::Apply
                }
            },
        }
    }
}

/// Decides how the open note takes in what another device stored.
pub fn peer_merge(d: &Draft, fresh: &Option<StoredNote>) -> (r: PeerMerge)
    ensures
        r == peer_merge_spec(*d, *fresh),
{
    if d.note_id.as_str().is_empty() || d.deleted {
        return PeerMerge::Keep;
    }
    match fresh {
        None => PeerMerge::Keep,
        Some(s) => {
            let title_same = match &s.title {
                Some(t) => same_text(t.as_str(), d.base_title.as_str()),
                None => d.base_title.as_str().is_empty(),
            };
            proof {
                if s.title is None {
                    assert(d.base_title@.len() == 0 ==> d.base_title@ =~= Seq::<char>::empty());
                }
            }
            let changed = !title_same || !same_text(s.content.as_str(), d.base_content.as_str())
                || !same_texts(&s.tags, &d.base_tags);
            if !changed {
                return PeerMerge::Keep;
            }
            let dirty = !same_text(d.title.as_str(), d.base_title.as_str())
                || !same_text(d.content.as_str(), d.base_content.as_str())
                || !same_texts(&d.tags, &d.base_tags);
            if dirty {
                PeerMerge::Offer
            } else {
                PeerMerge::Apply
            }
        },
    }
}

/// Whether to ask for a generated title now: not once one was generated or
/// while one is being made, and only when the content runs past 50 bytes
/// while the title is still an automatic one.
pub fn should_generate_title(content: &str, title_is_auto: bool, done: bool, generating: bool) -> (r: bool)
    ensures
        r == (!done && !generating && content.len() > 50 && title_is_auto),
{
    if done || generating {
        return false;
    }
    if content.len() <= 50 || !title_is_auto {
        return false;
    }
    true
}

/// The part of the content a title is generated from: its first 1500
/// characters.
pub fn title_source(content: &str) -> (r: String)
    ensures
        r@ == content@.take(if content@.len() < 1500 { content@.len() as int } else { 1500 }),
{
    let r = crate::text::char_prefix(content, 1500);
    r
}

/// A dictated text added to the note: the text alone into an empty note,
/// after a line break otherwise.
pub open spec fn with_dictation(current: Seq<char>, text: Seq<char>) -> Seq<char> {
    if current.len() == 0 {
        text
    } else {
        current + seq!['\n'] + text
    }
}

/// Adds dictated `text` to the note's `current` content.
pub fn append_dictation(current: &str, text: &str) -> (r: String)
    ensures
        r@ == with_dictation(current@, text@),
{
    if current.is_empty() {
        String::from_str(text)
    } else {
        let mut out = String::from_str(current);
        push_char(&mut out, '\n');
        push_str(&mut out, text);
        out
    }
}

/// What "copy" puts on the clipboard: the body alone when the title is
/// blank, otherwise the title, an empty line, and the body.
pub open spec fn copy_payload_spec(title: Seq<char>, body: Seq<char>) -> Seq<char> {
    if trimmed(title).len() == 0 {
        body
    } else {
        title + seq!['\n', '\n'] + body
    }
}

/// The text the note screen copies.
pub fn copy_payload(title: &str, body: &str) -> (r: String)
    ensures
        r@ == copy_payload_spec(title@, body@),
{
    let t = trim(title);
    if t.as_str().is_empty() {
        String::from_str(body)
    } else {
        let mut out = String::from_str(title);
        push_char(&mut out, '\n');
        push_char(&mut out, '\n');
        push_str(&mut out, body);
        out
    }
}

/// What the list's long-press menu copies: the title (or the
/// "untitled" label when there is none), an empty line, and the content.
pub fn row_copy_payload(title: &Option<String>, untitled: &str, content: &str) -> (r: String)
    ensures
        r@ == (match *title {
            Some(t) => t@,
            None => untitled@,
        }) + seq!['\n', '\n'] + content@,
{
    let mut out = match title {
        Some(t) => String::from_str(t.as_str()),
        None => String::from_str(untitled),
    };
    push_char(&mut out, '\n');
    push_char(&mut out, '\n');
    push_str(&mut out, content);
    out
}

/// The folder a note screen opens in: the selected folder for a new note,
/// the first folder the stored note is in otherwise.
pub fn initial_folder(is_new: bool, selected: &Option<String>, note_folders: &Vec<String>) -> (r: Option<String>)
    ensures
        is_new ==> opt_text(r) == opt_text(*selected),
        !is_new && note_folders@.len() > 0 ==> opt_text(r) == Some(note_folders@[0]@),
        !is_new && note_folders@.len() == 0 ==> r is None,
{
    if is_new {
        match selected {
            Some(s) => Some(String::from_str(s.as_str())),
            None => None,
        }
    } else if note_folders.len() > 0 {
        Some(String::from_str(note_folders[0].as_str()))
    } else {
        None
    }
}

} // verus!

verus! {

/// Loads the stored version into the editor and takes it as the new base.
pub fn apply_stored(d: &mut Draft, s: &StoredNote)
    ensures
        final(d).title@ == stored_title(*s),
        final(d).content@ == s.content@,
        texts(final(d).tags@) == texts(s.tags@),
        final(d).base_title@ == stored_title(*s),
        final(d).base_content@ == s.content@,
        texts(final(d).base_tags@) == texts(s.tags@),
        final(d).note_id == old(d).note_id,
        final(d).folder == old(d).folder,
        final(d).orig_folder == old(d).orig_folder,
        final(d).has_pending_audio == old(d).has_pending_audio,
        final(d).deleted == old(d).deleted,
        final(d).note_gone == old(d).note_gone,
{
    let title = match &s.title {
        Some(t) => String::from_str(t.as_str()),
        None => String::new(),
    };
    d.title = String::from_str(title.as_str());
    d.base_title = title;
    d.content = String::from_str(s.content.as_str());
    d.base_content = String::from_str(s.content.as_str());
    d.tags = copy_texts(&s.tags);
    d.base_tags = copy_texts(&s.tags);
}

/// Once the stored version of a note has been loaded, the same version
/// arriving again changes nothing: the screen neither offers nor reloads it.
pub proof fn lemma_applied_version_is_kept(after: Draft, s: StoredNote)
    requires
        after.title@ == stored_title(s),
        after.content@ == s.content@,
        texts(after.tags@) == texts(s.tags@),
        after.base_title@ == stored_title(s),
        after.base_content@ == s.content@,
        texts(after.base_tags@) == texts(s.tags@),
    ensures
        peer_merge_spec(after, Some(s)) == PeerMerge::Keep,
{
}

/// A stored note whose editor still holds what was loaded, in the same
/// folder and with no recording waiting, is not written again on close.
pub proof fn lemma_unchanged_note_is_not_saved(d: Draft)
    requires
        d.note_id@.len() > 0,
        d.title@ == d.base_title@,
        d.content@ == d.base_content@,
        texts(d.tags@) == texts(d.base_tags@),
        opt_text(d.folder) == opt_text(d.orig_folder),
        !d.has_pending_audio,
    ensures
        close_action_spec(d) == CloseAction::Skip,
{
}

/// A note deleted from its screen is never saved back on close.
pub proof fn lemma_deleted_note_is_not_saved(d: Draft)
    requires
        d.deleted,
    ensures
        close_action_spec(d) == CloseAction::Skip,
{
}

/// What the user typed is never overwritten by another device's version:
/// while the title, content or tags differ from the loaded ones, a changed
/// stored note is only offered, never applied.
pub proof fn lemma_edits_are_never_overwritten(d: Draft, fresh: Option<StoredNote>)
    requires
        d.title@ != d.base_title@ || d.content@ != d.base_content@ || texts(d.tags@) != texts(
            d.base_tags@,
        ),
    ensures
        peer_merge_spec(d, fresh) != PeerMerge::Apply,
{
}

/// A new note with something in it (text or a recording) is always stored
/// when its screen closes, unless it was deleted.
pub proof fn lemma_new_note_with_content_is_created(d: Draft)
    requires
        d.note_id@.len() == 0,
        !d.deleted,
        d.content@.len() > 0 || d.has_pending_audio,
    ensures
        close_action_spec(d) == CloseAction::Create,
{
}

} // verus!

verus! {

/// The title, content and tags a note screen opens on: for a new note the
/// generated title and nothing else; for a stored note what it holds (an
/// empty title when it has none); for a note that cannot be read, nothing.
pub open spec fn opening_title(note_id: Seq<char>, stored: Option<StoredNote>, auto_title: Seq<char>) -> Seq<char> {
    if note_id.len() == 0 {
        auto_title
    } else {
        match stored {
            Some(s) => stored_title(s),
            None => Seq::empty(),
        }
    }
}

/// The content a note screen opens on.
pub open spec fn opening_content(stored: Option<StoredNote>) -> Seq<char> {
    match stored {
        Some(s) => s.content@,
        None => Seq::empty(),
    }
}

/// The tags a note screen opens on.
pub open spec fn opening_tags(stored: Option<StoredNote>) -> Seq<Seq<char>> {
    match stored {
        Some(s) => texts(s.tags@),
        None => Seq::empty(),
    }
}

/// The draft a note screen opens on, and whether it opens in edit mode
/// (only a new note does). The loaded values are also the base that later
/// changes are measured against; the folder is both the current and the
/// original one.
pub fn open_draft(note_id: String, stored: Option<StoredNote>, auto_title: String, folder: Option<String>) -> (r: (Draft, bool))
    ensures
        r.0.note_id == note_id,
        r.0.title@ == opening_title(note_id@, stored, auto_title@),
        r.0.content@ == opening_content(stored),
        texts(r.0.tags@) == opening_tags(stored),
        r.0.base_title@ == opening_title(note_id@, stored, auto_title@),
        r.0.base_content@ == opening_content(stored),
        texts(r.0.base_tags@) == opening_tags(stored),
        opt_text(r.0.folder) == opt_text(folder),
        opt_text(r.0.orig_folder) == opt_text(folder),
        !r.0.has_pending_audio,
        !r.0.deleted,
        !r.0.note_gone,
        r.1 == (note_id@.len() == 0),
{
    let is_new = note_id.as_str().as_bytes().len() == 0;
    let (title, content, tags) = match stored {
        Some(s) => {
            let t = match s.title {
                Some(t) => t,
                None => String::new(),
            };
            (t, s.content, s.tags)
        },
        None => (String::new(), String::new(), Vec::new()),
    };
    let title = if is_new {
        auto_title
    } else {
        title
    };
    proof {
        assert(texts(Seq::<String>::empty()) =~= Seq::<Seq<char>>::empty());
    }
    let orig_folder = match &folder {
        Some(f) => Some(String::from_str(f.as_str())),
        None => None,
    };
    let d = Draft {
        note_id,
        base_title: String::from_str(title.as_str()),
        title,
        base_content: String::from_str(content.as_str()),
        content,
        base_tags: copy_texts(&tags),
        tags,
        folder,
        orig_folder,
        has_pending_audio: false,
        deleted: false,
        note_gone: false,
    };
    (d, is_new)
}

/// A note screen closed right after it opened saves nothing: a stored note
/// is unchanged, and a new note has no content and no recording.
pub proof fn lemma_opened_note_closes_quietly(d: Draft)
    requires
        d.title@ == d.base_title@,
        d.content@ == d.base_content@,
        texts(d.tags@) == texts(d.base_tags@),
        opt_text(d.folder) == opt_text(d.orig_folder),
        !d.has_pending_audio,
        d.note_id@.len() == 0 ==> d.content@.len() == 0,
    ensures
        close_action_spec(d) == CloseAction::Skip,
{
}

} // verus!

verus! {

/// How a saved, open note takes in another device's stored version `s`:
/// it keeps the editor exactly when `s` holds the title, content and tags
/// the editor was loaded with (any other stored change is taken in); a
/// change is applied straight away exactly when nothing was edited, and
/// offered when something was.
pub proof fn lemma_peer_merge_takes_every_change(d: Draft, s: StoredNote)
    requires
        d.note_id@.len() > 0,
        !d.deleted,
    ensures
        (peer_merge_spec(d, Some(s)) == PeerMerge::Keep) <==> (stored_title(s) == d.base_title@
            && s.content@ == d.base_content@ && texts(s.tags@) == texts(d.base_tags@)),
        peer_merge_spec(d, Some(s)) == PeerMerge::Apply ==> (d.title@ == d.base_title@ && d.content@
            == d.base_content@ && texts(d.tags@) == texts(d.base_tags@)),
        (d.title@ == d.base_title@ && d.content@ == d.base_content@ && texts(d.tags@) == texts(d.base_tags@)
            && peer_merge_spec(d, Some(s)) != PeerMerge::Keep) ==> peer_merge_spec(d, Some(s)) == PeerMerge::Apply,
        (d.title@ != d.base_title@ || d.content@ != d.base_content@ || texts(d.tags@) != texts(d.base_tags@))
            && peer_merge_spec(d, Some(s)) != PeerMerge::Keep ==> peer_merge_spec(d, Some(s)) == PeerMerge::Offer,
        (s.title matches Some(t) && t@ != d.base_title@) ==> peer_merge_spec(d, Some(s)) != PeerMerge::Keep,
{
}

/// A stored note that is still there and not emptied is updated on close
/// whenever its title, content, tags or folder differ from what was loaded,
/// or a recording waits; a title change alone is enough.
pub proof fn lemma_changed_stored_note_is_updated(d: Draft)
    requires
        d.note_id@.len() > 0,
        !d.deleted,
        !d.note_gone,
        d.title@.len() > 0 || d.content@.len() > 0,
    ensures
        (d.title@ != d.base_title@ || d.content@ != d.base_content@ || texts(d.tags@) != texts(d.base_tags@)
            || opt_text(d.folder) != opt_text(d.orig_folder) || d.has_pending_audio)
            ==> close_action_spec(d) == CloseAction::Update,
        close_action_spec(d) != CloseAction::Create,
        d.title@ != d.base_title@ ==> close_action_spec(d) == CloseAction::Update,
{
}

/// What closing does in the other cases, for every draft: a note deleted
/// from its screen, or gone meanwhile, or a stored note emptied of title
/// and content, is never written; a new note is created exactly when it has
/// content or a recording waits, and nothing else creates a note.
pub proof fn lemma_close_action_cases(d: Draft)
    ensures
        d.deleted ==> close_action_spec(d) == CloseAction::Skip,
        d.note_id@.len() > 0 && d.note_gone ==> close_action_spec(d) == CloseAction::Skip,
        d.note_id@.len() > 0 && d.title@.len() == 0 && d.content@.len() == 0 ==> close_action_spec(d) == CloseAction::Skip,
        d.note_id@.len() == 0 && !d.deleted ==> (close_action_spec(d) == CloseAction::Create <==> (d.content@.len() > 0
            || d.has_pending_audio)),
        close_action_spec(d) == CloseAction::Create ==> d.note_id@.len() == 0,
        close_action_spec(d) == CloseAction::Update ==> d.note_id@.len() > 0,
{
}

} // verus!
