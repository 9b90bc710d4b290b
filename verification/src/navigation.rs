//! Where the app is, and how it moves between screens.

use crate::text::{opt_text, same_opt_text, same_text};
use vstd::prelude::*;
use vstd::view::View as _;

verus! {

/// The two tabs of the sidebar.
#[derive(Clone, Copy, Debug, PartialEq, Eq, Structural)]
pub enum SidebarTab {
    Notes,
    Chats,
}

/// The pages of the settings.
#[derive(Clone, Copy, Debug, PartialEq, Eq, Structural)]
pub enum SettingsSection {
    General,
    Account,
    Intelligence,
    Transcription,
    Storage,
    Backup,
    Connections,
    Privacy,
    Shortcuts,
    Spaces,
}

/// The text key of a settings page's title.
pub open spec fn section_title_key(s: SettingsSection) -> Seq<char> {
    match s {
        SettingsSection::General => "settings-section-general"@,
        SettingsSection::Account => "settings-section-account"@,
        SettingsSection::Intelligence => "settings-section-intelligence"@,
        SettingsSection::Transcription => "settings-section-transcription"@,
        SettingsSection::Storage => "settings-storage-title"@,
        SettingsSection::Backup => "settings-backup-title"@,
        SettingsSection::Connections => "settings-section-connections"@,
        SettingsSection::Privacy => "settings-section-privacy"@,
        SettingsSection::Shortcuts => "settings-section-shortcuts"@,
        SettingsSection::Spaces => "settings-section-spaces"@,
    }
}

impl SettingsSection {
    /// The text key of this page's title.
    pub fn title_key(self) -> (r: &'static str)
        ensures
            r@ == section_title_key(self),
    {
        match self {
            SettingsSection::General => "settings-section-general",
            SettingsSection::Account => "settings-section-account",
            SettingsSection::Intelligence => "settings-section-intelligence",
            SettingsSection::Transcription => "settings-section-transcription",
            SettingsSection::Storage => "settings-storage-title",
            SettingsSection::Backup => "settings-backup-title",
            SettingsSection::Connections => "settings-section-connections",
            SettingsSection::Privacy => "settings-section-privacy",
            SettingsSection::Shortcuts => "settings-section-shortcuts",
            SettingsSection::Spaces => "settings-section-spaces",
        }
    }
}

/// The screen the main area shows.
#[derive(Clone, Debug)]
pub enum View {
    NotesList,
    /// A note; the empty id is a note not written yet.
    NoteDetail { note_id: String },
    ThreadDetail { thread_id: String },
    Chat { conversation_id: Option<String> },
    Settings,
    SettingsSection(SettingsSection),
    SyncPairing,
    /// A share link opened read-only.
    SharedView { code: String },
}

/// Two views show the same screen.
pub open spec fn same_view_spec(a: View, b: View) -> bool {
    match (a, b) {
        (View::NotesList, View::NotesList) => true,
        (View::NoteDetail { note_id: x }, View::NoteDetail { note_id: y }) => x@ == y@,
        (View::ThreadDetail { thread_id: x }, View::ThreadDetail { thread_id: y }) => x@ == y@,
        (View::Chat { conversation_id: x }, View::Chat { conversation_id: y }) => opt_text(x)
            == opt_text(y),
        (View::Settings, View::Settings) => true,
        (View::SettingsSection(x), View::SettingsSection(y)) => x == y,
        (View::SyncPairing, View::SyncPairing) => true,
        (View::SharedView { code: x }, View::SharedView { code: y }) => x@ == y@,
        _ => false,
    }
}

/// Whether `a` and `b` show the same screen.
pub fn same_view(a: &View, b: &View) -> (r: bool)
    ensures
        r == same_view_spec(*a, *b),
{
    match (a, b) {
        (View::NotesList, View::NotesList) => true,
        (View::NoteDetail { note_id: x }, View::NoteDetail { note_id: y }) => same_text(
            x.as_str(),
            y.as_str(),
        ),
        (View::ThreadDetail { thread_id: x }, View::ThreadDetail { thread_id: y }) => same_text(
            x.as_str(),
            y.as_str(),
        ),
        (View::Chat { conversation_id: x }, View::Chat { conversation_id: y }) => same_opt_text(
            x,
            y,
        ),
        (View::Settings, View::Settings) => true,
        (View::SettingsSection(x), View::SettingsSection(y)) => *x == *y,
        (View::SyncPairing, View::SyncPairing) => true,
        (View::SharedView { code: x }, View::SharedView { code: y }) => same_text(
            x.as_str(),
            y.as_str(),
        ),
        _ => false,
    }
}

/// How a sidebar row moves to its screen.
#[derive(Clone, Copy, Debug, PartialEq, Eq, Structural)]
pub enum SlidePlan {
    /// Already there: nothing to do.
    Stay,
    /// Forget the previous view and show the target at once.
    Immediate,
    /// Slide the current screen out, then (after the animation) forget the
    /// previous view and show the target.
    Slide,
}

/// The plan for going from `current` to `target`: back to the list from
/// another screen slides (outside macOS); everything else switches at once.
pub open spec fn slide_plan_spec(current: View, target: View, macos: bool) -> SlidePlan {
    if same_view_spec(current, target) {
        SlidePlan::Stay
    } else if macos || !(target is NotesList) || current is NotesList {
        SlidePlan::Immediate
    } else {
        SlidePlan::Slide
    }
}

/// Decides how to navigate from `current` to `target`.
pub fn navigate_with_slide(current: &View, target: &View, macos: bool) -> (r: SlidePlan)
    ensures
        r == slide_plan_spec(*current, *target, macos),
{
    if same_view(current, target) {
        return SlidePlan::Stay;
    }
    let target_is_list = match target {
        View::NotesList => true,
        _ => false,
    };
    let current_is_list = match current {
        View::NotesList => true,
        _ => false,
    };
    if macos || !target_is_list || current_is_list {
        SlidePlan::Immediate
    } else {
        SlidePlan::Slide
    }
}

/// Opening a blank note from a note screen must pass through the list
/// first, or the mounted note screen would keep the old note's state.
pub fn new_note_needs_bounce(current: &View) -> (r: bool)
    ensures
        r == (*current is NoteDetail),
{
    match current {
        View::NoteDetail { .. } => true,
        _ => false,
    }
}

/// After a note is deleted, the screen goes back to the list only if it
/// still shows that very note (a newer view is never redirected).
pub fn leave_after_delete(current: &View, deleted_id: &str) -> (r: bool)
    ensures
        r == (match *current {
            View::NoteDetail { note_id } => note_id@ == deleted_id@,
            _ => false,
        }),
{
    match current {
        View::NoteDetail { note_id } => same_text(note_id.as_str(), deleted_id),
        _ => false,
    }
}

/// What Enter picks in the folder picker.
#[derive(Clone, Copy, Debug, PartialEq, Eq, Structural)]
pub enum PickerChoice {
    /// No row is highlighted: Enter does nothing.
    Nothing,
    /// The first row: every folder.
    All,
    /// The folder row at this index.
    Row(usize),
}

/// Arrow down in the folder picker: the first row when none is highlighted,
/// otherwise the next one, stopping at the last. `rows` counts the folder
/// rows; the "all folders" row comes before them.
pub fn picker_down(index: Option<usize>, rows: usize) -> (r: usize)
    requires
        rows < usize::MAX,
    ensures
        r == (match index {
            None => 0,
            Some(i) => if i + 1 < rows + 1 { i + 1 } else { rows as int },
        }),
{
    match index {
        None => 0,
        Some(i) => if i < rows {
            i + 1
        } else {
            rows
        },
    }
}

/// Arrow up in the folder picker: the first row when none is highlighted,
/// otherwise the one above, stopping at the top.
pub fn picker_up(index: Option<usize>) -> (r: usize)
    ensures
        r == (match index {
            None => 0,
            Some(i) => if i > 0 { i - 1 } else { 0 },
        }),
{
    match index {
        None => 0,
        Some(i) => if i > 0 {
            i - 1
        } else {
            0
        },
    }
}

/// What Enter picks: nothing without a highlight, every folder on the first
/// row, the folder row above otherwise (nothing if it is gone).
pub fn picker_commit(index: Option<usize>, rows: usize) -> (r: PickerChoice)
    ensures
        r == (match index {
            None => PickerChoice::Nothing,
            Some(i) => if i == 0 {
                PickerChoice::All
            } else if i - 1 < rows {
                PickerChoice::Row((i - 1) as usize)
            } else {
                PickerChoice::Nothing
            },
        }),
{
    match index {
        None => PickerChoice::Nothing,
        Some(i) => if i == 0 {
            PickerChoice::All
        } else if i - 1 < rows {
            PickerChoice::Row(i - 1)
        } else {
            PickerChoice::Nothing
        },
    }
}

} // verus!

verus! {

/// The rows of the settings screen that open another screen.
#[derive(Clone, Copy, Debug, PartialEq, Eq, Structural)]
pub enum SettingsRow {
    Account,
    Connections,
    Spaces,
    Intelligence,
    Transcription,
    Sync,
    Storage,
    Backup,
    Privacy,
    General,
    Shortcuts,
}

/// The rows in the order they are shown; the shortcuts row exists on macOS
/// only.
pub open spec fn settings_rows_spec(macos: bool) -> Seq<SettingsRow> {
    let rows = seq![
        SettingsRow::Account,
        SettingsRow::Connections,
        SettingsRow::Spaces,
        SettingsRow::Intelligence,
        SettingsRow::Transcription,
        SettingsRow::Sync,
        SettingsRow::Storage,
        SettingsRow::Backup,
        SettingsRow::Privacy,
        SettingsRow::General,
    ];
    if macos {
        rows.push(SettingsRow::Shortcuts)
    } else {
        rows
    }
}

/// The rows of the settings screen, top to bottom.
pub fn settings_rows(macos: bool) -> (r: Vec<SettingsRow>)
    ensures
        r@ == settings_rows_spec(macos),
{
    let mut r = vec![
        SettingsRow::Account,
        SettingsRow::Connections,
        SettingsRow::Spaces,
        SettingsRow::Intelligence,
        SettingsRow::Transcription,
        SettingsRow::Sync,
        SettingsRow::Storage,
        SettingsRow::Backup,
        SettingsRow::Privacy,
        SettingsRow::General,
    ];
    if macos {
        r.push(SettingsRow::Shortcuts);
    }
    proof {
        assert(r@ =~= settings_rows_spec(macos));
    }
    r
}

/// The screen a settings row opens: the pairing screen for sync, its own
/// page for every other row.
pub open spec fn row_target_spec(row: SettingsRow) -> View {
    match row {
        SettingsRow::Account => View::SettingsSection(SettingsSection::Account),
        SettingsRow::Connections => View::SettingsSection(SettingsSection::Connections),
        SettingsRow::Spaces => View::SettingsSection(SettingsSection::Spaces),
        SettingsRow::Intelligence => View::SettingsSection(SettingsSection::Intelligence),
        SettingsRow::Transcription => View::SettingsSection(SettingsSection::Transcription),
        SettingsRow::Sync => View::SyncPairing,
        SettingsRow::Storage => View::SettingsSection(SettingsSection::Storage),
        SettingsRow::Backup => View::SettingsSection(SettingsSection::Backup),
        SettingsRow::Privacy => View::SettingsSection(SettingsSection::Privacy),
        SettingsRow::General => View::SettingsSection(SettingsSection::General),
        SettingsRow::Shortcuts => View::SettingsSection(SettingsSection::Shortcuts),
    }
}

/// Opening a settings row: the screen to show, and the screen to come back
/// to (the settings themselves).
pub fn open_settings_row(row: SettingsRow) -> (r: (View, View))
    ensures
        r.0 == row_target_spec(row),
        r.1 == View::Settings,
{
    let target = match row {
        SettingsRow::Account => View::SettingsSection(SettingsSection::Account),
        SettingsRow::Connections => View::SettingsSection(SettingsSection::Connections),
        SettingsRow::Spaces => View::SettingsSection(SettingsSection::Spaces),
        SettingsRow::Intelligence => View::SettingsSection(SettingsSection::Intelligence),
        SettingsRow::Transcription => View::SettingsSection(SettingsSection::Transcription),
        SettingsRow::Sync => View::SyncPairing,
        SettingsRow::Storage => View::SettingsSection(SettingsSection::Storage),
        SettingsRow::Backup => View::SettingsSection(SettingsSection::Backup),
        SettingsRow::Privacy => View::SettingsSection(SettingsSection::Privacy),
        SettingsRow::General => View::SettingsSection(SettingsSection::General),
        SettingsRow::Shortcuts => View::SettingsSection(SettingsSection::Shortcuts),
    };
    (target, View::Settings)
}

} // verus!
