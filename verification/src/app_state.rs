//! The state the screens share, as plain values, and what it holds when the
//! app starts.

use crate::folders::RowMenu;
use crate::navigation::{SidebarTab, View};
use crate::recording::RecordingState;
use vstd::prelude::*;
use vstd::view::View as _;

verus! {

/// The shared state of the app's screens.
#[derive(Debug)]
pub struct AppState {
    pub view: View,
    pub sidebar_open: bool,
    pub selected_folder_id: Option<String>,
    pub recording_state: RecordingState,
    pub folders_version: u32,
    pub sliding_out: bool,
    /// How many bars the live waveform draws.
    pub audio_level_count: usize,
    pub notes_version: u32,
    pub current_note_id: Option<String>,
    pub previous_view: Option<View>,
    pub search_query: String,
    pub show_note_menu: bool,
    pub attachments_version: u32,
    pub show_chat_menu: bool,
    pub show_thread_menu: bool,
    pub show_tools_menu: bool,
    pub show_mention_menu: bool,
    /// Web search in the current chat (off by default).
    pub chat_web: bool,
    pub sidebar_tab: SidebarTab,
    pub show_folder_picker: bool,
    pub detail_folder_id: Option<String>,
    pub ai_consent: Option<bool>,
    pub current_lang: String,
    pub transcription_done_badge: usize,
    pub audio_import_requested: bool,
    pub sync_data_version: u64,
    pub view_history: Vec<View>,
    pub view_future: Vec<View>,
    pub history_nav: bool,
    pub picker_kb_up: u32,
    pub picker_kb_down: u32,
    pub picker_kb_commit: u32,
    pub row_menu: Option<RowMenu>,
}

impl AppState {
    /// The state at launch: the notes list, every panel closed, nothing
    /// selected or recorded, every counter at zero, twelve silent waveform
    /// bars, with the stored consent and language.
    pub fn new(consent: Option<bool>, lang: String) -> (r: AppState)
        ensures
            r.view is NotesList,
            !r.sidebar_open,
            r.selected_folder_id is None,
            r.recording_state is Idle,
            r.folders_version == 0,
            !r.sliding_out,
            r.audio_level_count == 12,
            r.notes_version == 0,
            r.current_note_id is None,
            r.previous_view is None,
            r.search_query@.len() == 0,
            !r.show_note_menu,
            r.attachments_version == 0,
            !r.show_chat_menu,
            !r.show_thread_menu,
            !r.show_tools_menu,
            !r.show_mention_menu,
            !r.chat_web,
            r.sidebar_tab == SidebarTab::Notes,
            !r.show_folder_picker,
            r.detail_folder_id is None,
            r.ai_consent == consent,
            r.current_lang == lang,
            r.transcription_done_badge == 0,
            !r.audio_import_requested,
            r.sync_data_version == 0,
            r.view_history@.len() == 0,
            r.view_future@.len() == 0,
            !r.history_nav,
            r.picker_kb_up == 0,
            r.picker_kb_down == 0,
            r.picker_kb_commit == 0,
            r.row_menu is None,
    {
        AppState {
            view: View::NotesList,
            sidebar_open: false,
            selected_folder_id: None,
            recording_state: RecordingState::Idle,
            folders_version: 0,
            sliding_out: false,
            audio_level_count: 12,
            notes_version: 0,
            current_note_id: None,
            previous_view: None,
            search_query: String::new(),
            show_note_menu: false,
            attachments_version: 0,
            show_chat_menu: false,
            show_thread_menu: false,
            show_tools_menu: false,
            show_mention_menu: false,
            chat_web: false,
            sidebar_tab: SidebarTab::Notes,
            show_folder_picker: false,
            detail_folder_id: None,
            ai_consent: consent,
            current_lang: lang,
            transcription_done_badge: 0,
            audio_import_requested: false,
            sync_data_version: 0,
            view_history: Vec::new(),
            view_future: Vec::new(),
            history_nav: false,
            picker_kb_up: 0,
            picker_kb_down: 0,
            picker_kb_commit: 0,
            row_menu: None,
        }
    }
}

} // verus!
