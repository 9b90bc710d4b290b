use flowflow::app_state::AppState;
use flowflow::conversations::{chat_date, chat_title, search_chats};
use flowflow::folders::{
    is_selected, menu_is_open, move_targets, offers_share, right_badge_key, row_margin_style,
    selection_after_delete, share_starts_collab, shows_lock, space_ref, target_indent_style,
    toggle_row_menu, writable_mode, FolderRight, RowMenu,
};
use flowflow::import::{
    check_import_size, document_name, eq_ignore_ascii_case, extraction_timeout_secs, is_pdf,
    new_note_title, timeout_minutes, MAX_IMPORT_BYTES, MIB,
};
use flowflow::navigation::{
    leave_after_delete, navigate_with_slide, new_note_needs_bounce, picker_commit, picker_down,
    picker_up, same_view, PickerChoice, SettingsSection, SidebarTab, SlidePlan, View,
};
use flowflow::note_actions::{
    action_key, apply_tool_event, busy_label, run_label_key, set_status, shows_run_button, Card,
    ToolEvent,
};
use flowflow::recording::{
    after_keep, elapsed_label, is_idle, recorder_started, cancel_pressed, capsule_label, finish_route, record_button_stops,
    recording_status, timer_pressed, timer_text, transcript_arrived, CancelAction, FinishRoute,
    RecordingState, TimerAction,
};
use flowflow::related::{
    dismissed_state, link_subtitle, pin_toggle_state, press_step, PressAction, PressEvent,
    PressState,
};
use flowflow::reminders::{
    default_end, detect_step, detection_still_due, is_active, pending_suggestions, DetectStep,
};

fn some(s: &str) -> Option<String> {
    Some(s.to_string())
}

#[test]
fn section_titles() {
    assert_eq!(SettingsSection::General.title_key(), "settings-section-general");
    assert_eq!(SettingsSection::Storage.title_key(), "settings-storage-title");
    assert_eq!(SettingsSection::Backup.title_key(), "settings-backup-title");
    assert_eq!(SettingsSection::Spaces.title_key(), "settings-section-spaces");
}

#[test]
fn navigation_slides_back_to_the_list() {
    let detail = View::NoteDetail { note_id: "n1".to_string() };
    assert_eq!(navigate_with_slide(&detail, &detail.clone(), false), SlidePlan::Stay);
    assert_eq!(navigate_with_slide(&detail, &View::NotesList, false), SlidePlan::Slide);
    assert_eq!(navigate_with_slide(&detail, &View::NotesList, true), SlidePlan::Immediate);
    assert_eq!(navigate_with_slide(&View::NotesList, &View::Settings, false), SlidePlan::Immediate);
    assert!(same_view(&View::Chat { conversation_id: None }, &View::Chat { conversation_id: None }));
    assert!(!same_view(&View::Chat { conversation_id: some("a") }, &View::Chat { conversation_id: None }));
    assert!(new_note_needs_bounce(&detail));
    assert!(!new_note_needs_bounce(&View::NotesList));
    assert!(leave_after_delete(&detail, "n1"));
    assert!(!leave_after_delete(&detail, "n2"));
}

#[test]
fn picker_keyboard() {
    assert_eq!(picker_down(None, 3), 0);
    assert_eq!(picker_down(Some(0), 3), 1);
    assert_eq!(picker_down(Some(3), 3), 3);
    assert_eq!(picker_up(None), 0);
    assert_eq!(picker_up(Some(0)), 0);
    assert_eq!(picker_up(Some(2)), 1);
    assert_eq!(picker_commit(None, 3), PickerChoice::Nothing);
    assert_eq!(picker_commit(Some(0), 3), PickerChoice::All);
    assert_eq!(picker_commit(Some(2), 3), PickerChoice::Row(1));
    assert_eq!(picker_commit(Some(4), 3), PickerChoice::Nothing);
}

#[test]
fn launch_state() {
    let s = AppState::new(Some(true), "fr".to_string());
    assert!(matches!(s.view, View::NotesList));
    assert_eq!(s.sidebar_tab, SidebarTab::Notes);
    assert_eq!(s.ai_consent, Some(true));
    assert_eq!(s.current_lang, "fr");
    assert_eq!(s.audio_level_count, 12);
    assert!(matches!(s.recording_state, RecordingState::Idle));
    assert!(s.row_menu.is_none() && !s.sidebar_open && s.view_history.is_empty());
}

#[test]
fn row_menus_toggle() {
    let folder = RowMenu::Folder("f1".to_string());
    let opened = toggle_row_menu(None, RowMenu::Folder("f1".to_string()));
    assert!(menu_is_open(&opened, &folder));
    let closed = toggle_row_menu(opened, RowMenu::Folder("f1".to_string()));
    assert!(closed.is_none());
    let other = toggle_row_menu(Some(RowMenu::Space("f1".to_string())), RowMenu::Folder("f1".to_string()));
    assert!(menu_is_open(&other, &folder));
}

#[test]
fn folder_rows() {
    assert_eq!(space_ref(&some("s"), &some("r")), Some(("s".to_string(), "r".to_string())));
    assert_eq!(space_ref(&some("s"), &None), None);
    assert!(writable_mode(&None, "read"));
    assert!(writable_mode(&some("collab"), "read"));
    assert!(!writable_mode(&some("read"), "read"));
    assert!(shows_lock(FolderRight::SpaceReadOnly));
    assert!(!shows_lock(FolderRight::Local));
    assert!(offers_share(FolderRight::Local));
    assert!(!offers_share(FolderRight::SpaceCollab));
    assert_eq!(right_badge_key(FolderRight::SpaceReadOnly), "space-badge-readonly");
    assert_eq!(right_badge_key(FolderRight::SpaceCollab), "space-badge-collab");
    assert!(share_starts_collab(0));
    assert!(!share_starts_collab(2));
    assert_eq!(selection_after_delete(&some("f1"), "f1"), None);
    assert_eq!(selection_after_delete(&some("f2"), "f1"), some("f2"));
    assert!(is_selected(&some("f1"), "f1"));
    assert!(!is_selected(&None, "f1"));
    assert_eq!(row_margin_style(2), "margin-left: 24px");
    assert_eq!(target_indent_style(1), "padding-left: 26px");
}

#[test]
fn a_theme_never_moves_into_its_own_subtree() {
    let flat = vec!["root".to_string(), "me".to_string(), "child".to_string(), "other".to_string()];
    let forbidden = vec!["me".to_string(), "child".to_string()];
    assert_eq!(move_targets(&flat, &forbidden), vec![0, 3]);
}

#[test]
fn document_imports() {
    assert_eq!(MIB, 1_048_576);
    assert_eq!(check_import_size(MAX_IMPORT_BYTES), Ok(()));
    assert_eq!(check_import_size(MAX_IMPORT_BYTES + 1), Err(20));
    assert_eq!(check_import_size(30 * MIB), Err(30));
    assert_eq!(extraction_timeout_secs(0), 60);
    assert_eq!(extraction_timeout_secs(5 * MIB + 10), 210);
    assert_eq!(timeout_minutes(210), 3);
    assert!(eq_ignore_ascii_case("PdF", "pdf"));
    assert!(!eq_ignore_ascii_case("pdfx", "pdf"));
    assert!(is_pdf(&some("PDF")));
    assert!(!is_pdf(&some("docx")));
    assert!(!is_pdf(&None));
    assert_eq!(document_name(None), "document");
    assert_eq!(document_name(some("a.txt")), "a.txt");
    assert_eq!(new_note_title(String::new()), None);
    assert_eq!(new_note_title("T".to_string()), some("T"));
}

#[test]
fn chats_in_the_sidebar() {
    let titles = vec!["Pricing".to_string(), "Trip".to_string(), "PRICE list".to_string()];
    assert_eq!(search_chats(&titles, ""), vec![0, 1, 2]);
    assert_eq!(search_chats(&titles, "pric"), vec![0, 2]);
    assert_eq!(search_chats(&titles, "zzz"), Vec::<usize>::new());
    assert_eq!(chat_title("", "Untitled"), "Untitled");
    assert_eq!(chat_title("Plan", "Untitled"), "Plan");
    assert_eq!(chat_date("2024-05-10T10:00:00Z"), "2024-05-10");
    assert_eq!(chat_date("2024"), "2024");
}

#[test]
fn note_action_cards() {
    assert_eq!(action_key("n1"), "note_action:n1");
    assert_eq!(busy_label(some("CRM"), some("Sheets"), "Running"), "CRM · Sheets");
    assert_eq!(busy_label(some("CRM"), None, "Running"), "CRM");
    assert_eq!(busy_label(None, some("Sheets"), "Running"), "Sheets");
    assert_eq!(busy_label(None, None, "Running"), "Running");
    assert!(shows_run_button(false, true, false));
    assert!(!shows_run_button(false, false, false));
    assert_eq!(run_label_key(true), "note-rerun-action");
    let mut cards: Vec<Card<&str, &str>> = vec![];
    let mut tool: Option<String> = None;
    apply_tool_event(&mut cards, &mut tool, ToolEvent::Started { label: "Sheets".to_string() }, "pending");
    assert_eq!(tool, some("Sheets"));
    apply_tool_event(&mut cards, &mut tool, ToolEvent::Proposal { id: "p1".to_string(), view: "add row" }, "pending");
    apply_tool_event(&mut cards, &mut tool, ToolEvent::Proposal { id: "p2".to_string(), view: "delete" }, "pending");
    apply_tool_event(&mut cards, &mut tool, ToolEvent::EditRejected { id: "p2".to_string(), reason: "no".to_string() }, "pending");
    assert_eq!(cards[1].edit_error, some("no"));
    apply_tool_event(&mut cards, &mut tool, ToolEvent::ProposalResolved { id: "p2".to_string(), status: "approved" }, "pending");
    assert_eq!(cards[1].status, "approved");
    assert_eq!(cards[1].edit_error, None);
    assert_eq!(cards[0].status, "pending");
    set_status(&mut cards, "missing", "expired");
    assert_eq!((cards[0].status, cards[1].status), ("pending", "approved"));
    apply_tool_event(&mut cards, &mut tool, ToolEvent::Finished, "pending");
    assert_eq!(tool, None);
    apply_tool_event(&mut cards, &mut tool, ToolEvent::ReminderScheduled, "pending");
    assert_eq!(cards.len(), 2);
}

#[test]
fn capsule_timer_and_buttons() {
    assert_eq!(timer_text(0), "0:00");
    assert_eq!(timer_text(65), "1:05");
    assert_eq!(timer_text(3600), "60:00");
    assert_eq!(capsule_label(&RecordingState::Paused, "1:05", "Paused", "Transcribing"), "Paused · 1:05");
    assert_eq!(capsule_label(&RecordingState::Transcribing, "1:05", "Paused", "Transcribing"), "Transcribing");
    assert_eq!(capsule_label(&RecordingState::Recording, "1:05", "Paused", "Transcribing"), "1:05");
    assert_eq!(timer_pressed(&RecordingState::Paused), TimerAction::Resume);
    assert_eq!(timer_pressed(&RecordingState::Recording), TimerAction::Pause);
    assert_eq!(timer_pressed(&RecordingState::Transcribing), TimerAction::Nothing);
    assert!(matches!(recorder_started(Ok(())), RecordingState::Recording));
    assert!(matches!(recorder_started(Err("mic".to_string())), RecordingState::Error(e) if e == "mic"));
    assert_eq!(cancel_pressed(true, &RecordingState::Transcribing), CancelAction::StopFollowingJob);
    assert_eq!(cancel_pressed(false, &RecordingState::Transcribing), CancelAction::DropTranscript);
    assert_eq!(cancel_pressed(false, &RecordingState::Recording), CancelAction::DiscardTake);
    assert!(matches!(after_keep(true), RecordingState::Transcribing));
    assert!(matches!(after_keep(false), RecordingState::Idle));
    assert!(record_button_stops(&RecordingState::Recording));
    assert!(is_idle(&RecordingState::Error("x".to_string())));
    assert!(is_idle(&RecordingState::Transcribed("x".to_string())));
    assert!(!is_idle(&RecordingState::Paused));
    assert_eq!(elapsed_label("Transcribing", 125), "Transcribing · 2:05");
    assert!(!record_button_stops(&RecordingState::Idle));
}

#[test]
fn where_a_take_goes() {
    assert!(matches!(finish_route(false, false, 4, &some("n1")), FinishRoute::Dictate { generation: 5, send_when_done: false }));
    assert!(matches!(finish_route(true, true, 4, &some("n1")), FinishRoute::Dictate { generation: 5, send_when_done: true }));
    assert!(matches!(finish_route(true, false, 4, &some("n1")), FinishRoute::KeepClip { note_id: Some(n) } if n == "n1"));
    assert!(matches!(finish_route(true, false, 4, &some("")), FinishRoute::KeepClip { note_id: None }));
    assert!(matches!(finish_route(true, false, 4, &None), FinishRoute::KeepClip { note_id: None }));
}

#[test]
fn a_dropped_dictation_stays_dropped() {
    assert!(transcript_arrived(6, 5, Ok("late".to_string())).is_none());
    assert!(matches!(transcript_arrived(5, 5, Ok("text".to_string())), Some(RecordingState::Transcribed(t)) if t == "text"));
    assert!(matches!(transcript_arrived(5, 5, Err("net".to_string())), Some(RecordingState::Error(e)) if e == "net"));
}

#[test]
fn recording_screen_status() {
    assert_eq!(recording_status(&RecordingState::Idle, ""), "Appuyez pour enregistrer");
    assert_eq!(recording_status(&RecordingState::Stopped("x".to_string()), "a.m4a"), "Sauvegardé : a.m4a");
    assert_eq!(recording_status(&RecordingState::Error("mic".to_string()), ""), "Erreur : mic");
    assert_eq!(recording_status(&RecordingState::Transcribed("hello".to_string()), ""), "hello");
}

fn press() -> PressState {
    PressState { pressed: None, seq: 0, menu_for: None, suppress_click: false }
}

#[test]
fn long_press_opens_the_menu_and_swallows_the_click() {
    let (s, a) = press_step(press(), PressEvent::Down { key: "n2".to_string(), actionable: true });
    let (key, seq) = match a {
        PressAction::StartTimer { key, seq } => (key, seq),
        _ => panic!("no timer"),
    };
    assert_eq!((key.as_str(), seq), ("n2", 1));
    let (s, _) = press_step(s, PressEvent::TimerFired { key, seq });
    assert_eq!(s.menu_for, some("n2"));
    assert!(s.suppress_click);
    let (s, a) = press_step(s, PressEvent::Clicked);
    assert!(matches!(a, PressAction::Nothing));
    assert!(!s.suppress_click);
    let (s, a) = press_step(s, PressEvent::Clicked);
    assert!(matches!(a, PressAction::Nothing));
    assert_eq!(s.menu_for, None);
    let (_, a) = press_step(s, PressEvent::Clicked);
    assert!(matches!(a, PressAction::OpenNote));
}

#[test]
fn a_released_press_opens_nothing() {
    let (s, _) = press_step(press(), PressEvent::Down { key: "n2".to_string(), actionable: true });
    let (s, _) = press_step(s, PressEvent::Released);
    let (s, _) = press_step(s, PressEvent::TimerFired { key: "n2".to_string(), seq: 1 });
    assert_eq!(s.menu_for, None);
    let (s, a) = press_step(s, PressEvent::Down { key: "n3".to_string(), actionable: false });
    assert!(matches!(a, PressAction::Nothing));
    assert_eq!(s.seq, 1);
    assert_eq!(link_subtitle(None, "10/05".to_string()), "10/05");
    assert_eq!(link_subtitle(some("same trip"), "10/05".to_string()), "same trip");
    assert_eq!(pin_toggle_state(true), "active");
    assert_eq!(pin_toggle_state(false), "pinned");
    assert_eq!(dismissed_state(), "dismissed");
}

#[test]
fn reminder_detection_steps() {
    assert_eq!(detect_step("  short  ", "", true, false, "", false), DetectStep::Clear);
    assert_eq!(detect_step("short", "", false, false, "", false), DetectStep::Idle);
    assert_eq!(detect_step("call mom tomorrow", "call mom tomorrow", false, true, "", false), DetectStep::Idle);
    assert_eq!(detect_step("call mom tomorrow", "", false, true, "call mom tomorrow", true), DetectStep::MarkChecked);
    assert_eq!(detect_step("call mom tomorrow", "", false, false, "call mom tomorrow", true), DetectStep::Schedule);
    assert!(detection_still_due("abc", "abc", "", false));
    assert!(!detection_still_due("abcd", "abc", "", false));
    assert!(!detection_still_due("abc", "abc", "abc", false));
    assert!(!detection_still_due("abc", "abc", "", true));
    assert!(is_active("active"));
    assert!(!is_active("done"));
}

#[test]
fn reminder_suggestions_and_end_time() {
    assert_eq!(pending_suggestions(false, &vec![true, false]), vec![0, 1]);
    assert_eq!(pending_suggestions(true, &vec![true, false, false]), vec![1, 2]);
    assert_eq!(default_end("09:30"), "10:30");
    assert_eq!(default_end("23:15"), "00:15");
    assert_eq!(default_end(""), "10:00");
    assert_eq!(default_end("9h"), "10:00");
}

#[test]
fn shortcut_list() {
    let rows = flowflow::shortcuts::shortcut_rows();
    assert_eq!(rows.len(), 12);
    assert_eq!(rows[0].keys, vec!["⌘", "N"]);
    assert_eq!(rows[0].label_key, "shortcut-new-note");
    assert_eq!(rows[4].keys, vec!["⌘⌘", "⌘1", "⌘2"]);
    assert_eq!(rows[11].label_key, "shortcut-newline");
}
