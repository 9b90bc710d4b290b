use flowflow::recording::{after_cancel, transcript_arrived, CancelAction, RecordingState};
use flowflow::settings::intelligence_writes;
use flowflow::import::{import_failure_key, import_outcome, Extraction, ImportFailure};
use flowflow::spaces::{create_theme_pressed, Panel};
use flowflow::text::trim;
use flowflow::folders::{move_ops, move_targets, offers_move_to_root, FolderOp};
use flowflow::navigation::{open_settings_row, settings_rows, SettingsRow, SettingsSection, View};
use flowflow::note_actions::{
    abort_run, agent_resolved, finish_run, launch_run, run_route, ActionRun, Card, RunRoute,
};
use flowflow::note_edit::{close_action, open_draft, CloseAction, StoredNote};
use flowflow::settings::{backup_allowed, cleanup_pressed, CleanupStep};
use flowflow::spaces::{share_request_plan, ShareKind, ShareRequestPlan};
use flowflow::transcription::{
    highlighted_word, key_form_new, key_form_step, word_is_active, KeyAction, KeyEvent, KeyState,
};

fn some(s: &str) -> Option<String> {
    Some(s.to_string())
}

fn strings(v: &[&str]) -> Vec<String> {
    v.iter().map(|s| s.to_string()).collect()
}

#[test]
fn soniox_form_checks_the_trimmed_key_and_shows_the_answer() {
    let mut form = key_form_new(String::new());
    assert!(matches!(form.state, KeyState::Idle));
    let a = key_form_step(&mut form, KeyEvent::SavePressed);
    assert!(matches!(a, KeyAction::Nothing));
    assert!(matches!(form.state, KeyState::Idle));

    let a = key_form_step(&mut form, KeyEvent::Edited("  sk-123 \n".to_string()));
    assert!(matches!(a, KeyAction::Nothing));
    assert_eq!(form.key, "  sk-123 \n");

    let a = key_form_step(&mut form, KeyEvent::SavePressed);
    match a {
        KeyAction::SaveKey(k) => assert_eq!(k, "sk-123"),
        other => panic!("expected a save, got {:?}", other),
    }
    assert!(matches!(form.state, KeyState::Checking));

    let again = key_form_step(&mut form, KeyEvent::SavePressed);
    assert!(matches!(again, KeyAction::Nothing));
    assert!(matches!(form.state, KeyState::Checking));

    key_form_step(&mut form, KeyEvent::Checked(Err("401 unauthorized".to_string())));
    match &form.state {
        KeyState::Invalid(reason) => assert_eq!(reason, "401 unauthorized"),
        other => panic!("expected invalid, got {:?}", other),
    }

    key_form_step(&mut form, KeyEvent::Edited("sk-456".to_string()));
    assert!(matches!(form.state, KeyState::Idle));
    key_form_step(&mut form, KeyEvent::SavePressed);
    key_form_step(&mut form, KeyEvent::Checked(Ok(())));
    assert!(matches!(form.state, KeyState::Valid));
    assert_eq!(form.key, "sk-456");
}

#[test]
fn soniox_form_ignores_a_blank_key() {
    let mut form = key_form_new("   ".to_string());
    let a = key_form_step(&mut form, KeyEvent::SavePressed);
    assert!(matches!(a, KeyAction::Nothing));
    assert!(matches!(form.state, KeyState::Idle));
}

#[test]
fn move_targets_skip_the_theme_and_its_descendants() {
    let flat = strings(&["a", "b", "b1", "c"]);
    let forbidden = strings(&["b", "b1"]);
    assert_eq!(move_targets(&flat, &forbidden), vec![0, 3]);
    assert_eq!(move_targets(&flat, &Vec::new()), vec![0, 1, 2, 3]);
}

#[test]
fn move_to_top_level_needs_a_parent() {
    assert!(offers_move_to_root(&some("parent")));
    assert!(!offers_move_to_root(&None));
}

#[test]
fn moving_a_note_leaves_every_theme_then_joins_the_target() {
    let ops = move_ops(&strings(&["x", "y"]), &some("z"));
    assert_eq!(ops.len(), 3);
    assert!(matches!(&ops[0], FolderOp::Remove(id) if id == "x"));
    assert!(matches!(&ops[1], FolderOp::Remove(id) if id == "y"));
    assert!(matches!(&ops[2], FolderOp::Add(id) if id == "z"));

    let out = move_ops(&strings(&["x"]), &None);
    assert_eq!(out.len(), 1);
    assert!(matches!(&out[0], FolderOp::Remove(id) if id == "x"));
}

#[test]
fn a_new_note_opens_in_edit_mode_with_its_generated_title() {
    let (d, editing) = open_draft(String::new(), None, "Note du 3 mai".to_string(), some("f1"));
    assert!(editing);
    assert_eq!(d.title, "Note du 3 mai");
    assert_eq!(d.base_title, "Note du 3 mai");
    assert_eq!(d.content, "");
    assert!(d.tags.is_empty());
    assert_eq!(d.folder, some("f1"));
    assert_eq!(d.orig_folder, some("f1"));
    assert_eq!(close_action(&d), CloseAction::Skip);
}

#[test]
fn a_stored_note_opens_read_only_on_what_it_holds() {
    let stored = StoredNote { title: None, content: "corps".to_string(), tags: strings(&["t"]) };
    let (d, editing) = open_draft("n1".to_string(), Some(stored), "ignored".to_string(), None);
    assert!(!editing);
    assert_eq!(d.title, "");
    assert_eq!(d.content, "corps");
    assert_eq!(d.tags, strings(&["t"]));
    assert_eq!(d.base_tags, strings(&["t"]));
    assert_eq!(close_action(&d), CloseAction::Skip);

    let titled = StoredNote { title: some("Titre"), content: String::new(), tags: Vec::new() };
    let (d, _) = open_draft("n2".to_string(), Some(titled), "ignored".to_string(), None);
    assert_eq!(d.title, "Titre");
}

fn idle_run() -> ActionRun<u8, u8> {
    ActionRun {
        running: false,
        result: some("old answer"),
        error: some("old error"),
        cards: vec![Card { id: "c".to_string(), view: 1, status: 2, edit_error: None }],
        tool_status: some("searching"),
        running_agent: None,
    }
}

#[test]
fn a_note_action_starts_once_and_resets_the_run() {
    let mut run = idle_run();
    assert!(launch_run(&mut run, some("Planner")));
    assert!(run.running);
    assert_eq!(run.error, None);
    assert!(run.cards.is_empty());
    assert_eq!(run.tool_status, None);
    assert_eq!(run.running_agent, some("Planner"));
    assert_eq!(run.result, some("old answer"));

    assert!(!launch_run(&mut run, None));
    assert_eq!(run.running_agent, some("Planner"));

    finish_run(&mut run, Ok("new answer".to_string()));
    assert!(!run.running);
    assert_eq!(run.result, some("new answer"));
    assert_eq!(run.running_agent, None);
    assert!(launch_run(&mut run, None));
    abort_run(&mut run, "disk full".to_string());
    assert!(!run.running);
    assert_eq!(run.error, some("disk full"));
}

#[test]
fn a_failed_note_action_keeps_the_last_answer() {
    let mut run = idle_run();
    launch_run(&mut run, None);
    finish_run(&mut run, Err("timeout".to_string()));
    assert_eq!(run.error, some("timeout"));
    assert_eq!(run.result, some("old answer"));
    assert_eq!(run.tool_status, None);
}

#[test]
fn backups_wait_for_a_running_one_and_for_a_restore() {
    assert!(backup_allowed(false, false));
    assert!(!backup_allowed(true, false));
    assert!(!backup_allowed(false, true));
    assert_eq!(cleanup_pressed(false), CleanupStep::Arm);
    assert_eq!(cleanup_pressed(true), CleanupStep::Run);
}

#[test]
fn settings_rows_open_their_pages() {
    let rows = settings_rows(false);
    assert_eq!(rows.len(), 10);
    assert_eq!(rows[0], SettingsRow::Account);
    assert_eq!(rows[5], SettingsRow::Sync);
    let mac = settings_rows(true);
    assert_eq!(mac.len(), 11);
    assert_eq!(mac[10], SettingsRow::Shortcuts);

    let (to, back) = open_settings_row(SettingsRow::Sync);
    assert!(matches!(to, View::SyncPairing));
    assert!(matches!(back, View::Settings));
    let (to, _) = open_settings_row(SettingsRow::Backup);
    assert!(matches!(to, View::SettingsSection(SettingsSection::Backup)));
}

#[test]
fn a_share_request_reuses_or_publishes() {
    assert_eq!(share_request_plan(&some("other"), "n1", false, false, false), ShareRequestPlan::NotThis);
    assert_eq!(share_request_plan(&None, "n1", false, false, false), ShareRequestPlan::NotThis);
    assert_eq!(share_request_plan(&some("n1"), "n1", true, false, false), ShareRequestPlan::AlreadyBusy);
    assert_eq!(share_request_plan(&some("n1"), "n1", false, true, true), ShareRequestPlan::CopyExisting);
    assert_eq!(
        share_request_plan(&some("n1"), "n1", false, false, true),
        ShareRequestPlan::Publish(ShareKind::Thread)
    );
    assert_eq!(
        share_request_plan(&some("n1"), "n1", false, false, false),
        ShareRequestPlan::Publish(ShareKind::Note)
    );
}

#[test]
fn only_the_playing_clip_highlights_a_word() {
    assert_eq!(highlighted_word(true, Some(4)), Some(4));
    assert_eq!(highlighted_word(false, Some(4)), None);
    assert!(word_is_active(Some(4), 4));
    assert!(!word_is_active(Some(4), 5));
    assert!(!word_is_active(None, 0));
}

#[test]
fn a_picked_agent_runs_by_its_launch_command() {
    assert!(matches!(run_route(some("lance crm")), RunRoute::Agent { launch_command } if launch_command == "lance crm"));
    assert!(matches!(run_route(None), RunRoute::NoteAction));
    assert_eq!(agent_resolved(Some(7u8), "indisponible".to_string()), Ok(7u8));
    assert_eq!(agent_resolved(None::<u8>, "indisponible".to_string()), Err("indisponible".to_string()));
}

#[test]
fn cancel_returns_to_idle_and_drops_a_pending_dictation() {
    let (state, gen) = after_cancel(CancelAction::DropTranscript, 4);
    assert!(matches!(state, RecordingState::Idle));
    assert_eq!(gen, 5);
    assert!(transcript_arrived(gen, 4, Ok("bonjour".to_string())).is_none());
    let (state, gen) = after_cancel(CancelAction::DiscardTake, 4);
    assert!(matches!(state, RecordingState::Idle));
    assert_eq!(gen, 4);
    let (_, gen) = after_cancel(CancelAction::StopFollowingJob, 9);
    assert_eq!(gen, 9);
}

#[test]
fn intelligence_save_writes_only_the_typed_keys() {
    let w = intelligence_writes("  sk-a ", "   ", 12);
    assert_eq!(
        w,
        vec![
            ("openai_api_key".to_string(), "sk-a".to_string()),
            ("rag_max_sources".to_string(), "12".to_string()),
        ]
    );
    let w = intelligence_writes("", "exa-1", -3);
    assert_eq!(
        w,
        vec![
            ("exa_api_key".to_string(), "exa-1".to_string()),
            ("rag_max_sources".to_string(), "-3".to_string()),
        ]
    );
}

#[test]
fn an_import_ends_with_the_text_or_the_reason() {
    let ok = import_outcome("a.txt".to_string(), Extraction::Done(Ok("texte".to_string())), 90).unwrap();
    assert_eq!(ok.filename, "a.txt");
    assert_eq!(ok.content, "texte");
    match import_outcome("a.txt".to_string(), Extraction::TimedOut, 150) {
        Err(f @ ImportFailure::TooComplex(2)) => assert_eq!(import_failure_key(&f), Some("note-file-too-complex")),
        other => panic!("unexpected {:?}", other),
    }
    match import_outcome("a.txt".to_string(), Extraction::Interrupted, 60) {
        Err(f @ ImportFailure::Interrupted) => assert_eq!(import_failure_key(&f), Some("note-extract-interrupted")),
        other => panic!("unexpected {:?}", other),
    }
    match import_outcome("a.txt".to_string(), Extraction::Done(Err("bad zip".to_string())), 60) {
        Err(f @ ImportFailure::Reader(_)) => {
            assert_eq!(import_failure_key(&f), None);
            assert!(matches!(f, ImportFailure::Reader(m) if m == "bad zip"));
        }
        other => panic!("unexpected {:?}", other),
    }
}

#[test]
fn creating_a_theme_needs_a_name_and_closes_the_panel() {
    let (panel, field, req) = create_theme_pressed(Panel::NewTheme, "   ".to_string(), "sp1", true);
    assert_eq!(panel, Panel::NewTheme);
    assert_eq!(field, "   ");
    assert!(req.is_none());
    let (panel, field, req) = create_theme_pressed(Panel::NewTheme, " Projets ".to_string(), "sp1", true);
    assert_eq!(panel, Panel::Closed);
    assert_eq!(field, "");
    let req = req.unwrap();
    assert_eq!(req.space_id, "sp1");
    assert_eq!(req.name, "Projets");
    assert!(req.collab);
}

#[test]
fn trim_removes_unicode_white_space_at_both_ends() {
    assert_eq!(trim("  a b \t\n"), "a b");
    assert_eq!(trim("\u{3000}\u{a0}mot\u{2029}"), "mot");
    assert_eq!(trim(" \u{85} "), "");
    assert_eq!(trim("x"), "x");
    assert_eq!(trim("\u{200b}z"), "\u{200b}z");
    for s in ["", " é ", "\u{1680}ab\u{205f}", "a\u{2000}b"] {
        assert_eq!(trim(s), s.trim());
    }
}
