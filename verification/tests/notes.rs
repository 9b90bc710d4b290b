use flowflow::note_card::{card_date, card_preview, card_title};
use flowflow::note_edit::{
    append_dictation, apply_stored, close_action, copy_payload, initial_folder, peer_merge,
    row_copy_payload, should_generate_title, title_source, CloseAction, Draft, PeerMerge,
    StoredNote,
};
use flowflow::tags::{add_tag, can_auto_tag, merge_tags, remove_tag, shows_tag_input, MAX_TYPED_TAGS};

fn strings(v: &[&str]) -> Vec<String> {
    v.iter().map(|s| s.to_string()).collect()
}

fn draft(note_id: &str, title: &str, content: &str) -> Draft {
    Draft {
        note_id: note_id.to_string(),
        title: title.to_string(),
        content: content.to_string(),
        tags: vec![],
        folder: None,
        base_title: title.to_string(),
        base_content: content.to_string(),
        base_tags: vec![],
        orig_folder: None,
        has_pending_audio: false,
        deleted: false,
        note_gone: false,
    }
}

#[test]
fn closing_a_new_note() {
    assert_eq!(close_action(&draft("", "", "")), CloseAction::Skip);
    assert_eq!(close_action(&draft("", "", "hello")), CloseAction::Create);
    let mut with_audio = draft("", "", "");
    with_audio.has_pending_audio = true;
    assert_eq!(close_action(&with_audio), CloseAction::Create);
}

#[test]
fn closing_a_stored_note() {
    assert_eq!(close_action(&draft("n1", "T", "body")), CloseAction::Skip);
    let mut edited = draft("n1", "T", "body");
    edited.content = "body 2".to_string();
    assert_eq!(close_action(&edited), CloseAction::Update);
    let mut moved = draft("n1", "T", "body");
    moved.folder = Some("f".to_string());
    assert_eq!(close_action(&moved), CloseAction::Update);
    let mut retagged = draft("n1", "T", "body");
    retagged.tags = strings(&["x"]);
    assert_eq!(close_action(&retagged), CloseAction::Update);
    let mut emptied = draft("n1", "T", "body");
    emptied.title = String::new();
    emptied.content = String::new();
    assert_eq!(close_action(&emptied), CloseAction::Skip);
    let mut gone = edited;
    gone.note_gone = true;
    assert_eq!(close_action(&gone), CloseAction::Skip);
    let mut deleted = draft("", "", "text");
    deleted.deleted = true;
    assert_eq!(close_action(&deleted), CloseAction::Skip);
}

#[test]
fn peer_changes_are_applied_offered_or_kept() {
    let d = draft("n1", "T", "body");
    assert_eq!(peer_merge(&d, &None), PeerMerge::Keep);
    let same = Some(StoredNote { title: Some("T".to_string()), content: "body".to_string(), tags: vec![] });
    assert_eq!(peer_merge(&d, &same), PeerMerge::Keep);
    let changed = Some(StoredNote { title: Some("T".to_string()), content: "new".to_string(), tags: vec![] });
    assert_eq!(peer_merge(&d, &changed), PeerMerge::Apply);
    let mut edited = draft("n1", "T", "body");
    edited.content = "mine".to_string();
    assert_eq!(peer_merge(&edited, &changed), PeerMerge::Offer);
}

#[test]
fn applying_the_stored_version_makes_it_the_base() {
    let mut d = draft("n1", "T", "body");
    let s = StoredNote { title: None, content: "new".to_string(), tags: strings(&["a"]) };
    apply_stored(&mut d, &s);
    assert_eq!(d.title, "");
    assert_eq!(d.content, "new");
    assert_eq!(d.base_content, "new");
    assert_eq!(d.tags, strings(&["a"]));
    assert_eq!(d.base_tags, strings(&["a"]));
    let again = Some(s);
    assert_eq!(peer_merge(&d, &again), PeerMerge::Keep);
}

#[test]
fn title_generation_starts_past_fifty_bytes() {
    let long = "x".repeat(51);
    assert!(should_generate_title(&long, true, false, false));
    assert!(!should_generate_title(&"x".repeat(50), true, false, false));
    assert!(!should_generate_title(&long, false, false, false));
    assert!(!should_generate_title(&long, true, true, false));
    assert!(!should_generate_title(&long, true, false, true));
    assert_eq!(title_source(&"é".repeat(1600)).chars().count(), 1500);
    assert_eq!(title_source("short"), "short");
}

#[test]
fn dictation_and_copy_texts() {
    assert_eq!(append_dictation("", "hello"), "hello");
    assert_eq!(append_dictation("a", "b"), "a\nb");
    assert_eq!(copy_payload("  ", "body"), "body");
    assert_eq!(copy_payload("Title", "body"), "Title\n\nbody");
    assert_eq!(row_copy_payload(&None, "Untitled", "c"), "Untitled\n\nc");
    assert_eq!(row_copy_payload(&Some("T".to_string()), "Untitled", "c"), "T\n\nc");
}

#[test]
fn initial_folder_of_new_and_stored_notes() {
    let sel = Some("f1".to_string());
    assert_eq!(initial_folder(true, &sel, &strings(&["f2"])), sel);
    assert_eq!(initial_folder(false, &sel, &strings(&["f2", "f3"])), Some("f2".to_string()));
    assert_eq!(initial_folder(false, &sel, &vec![]), None);
}

#[test]
fn tags_are_added_once_and_trimmed() {
    let mut tags = strings(&["work"]);
    assert!(!add_tag(&mut tags, "  "));
    assert!(!add_tag(&mut tags, " work "));
    assert!(add_tag(&mut tags, " home "));
    assert_eq!(tags, strings(&["work", "home"]));
    remove_tag(&mut tags, 0);
    assert_eq!(tags, strings(&["home"]));
    assert_eq!(MAX_TYPED_TAGS, 3);
    assert!(shows_tag_input(&strings(&["a", "b"])));
    assert!(!shows_tag_input(&strings(&["a", "b", "c"])));
}

#[test]
fn merged_tags_keep_order_without_repeats() {
    let merged = merge_tags(&strings(&["a", "b"]), &strings(&["b", "c", "c", "a", "d"]));
    assert_eq!(merged, strings(&["a", "b", "c", "d"]));
}

#[test]
fn auto_tagging_needs_twenty_bytes() {
    assert!(can_auto_tag(false, &format!("  {}  ", "y".repeat(20))));
    assert!(!can_auto_tag(false, &"y".repeat(19)));
    assert!(!can_auto_tag(true, &"y".repeat(40)));
}

#[test]
fn card_texts() {
    assert_eq!(card_preview("short"), "short");
    let long = "a".repeat(121);
    assert_eq!(card_preview(&long), format!("{}...", "a".repeat(120)));
    assert_eq!(card_preview(&"a".repeat(120)), "a".repeat(120));
    assert_eq!(card_date("2024-05-10 10:00:00"), "2024-05-10");
    assert_eq!(card_title(&None, "Untitled"), "Untitled");
    assert_eq!(card_title(&Some("T".to_string()), "Untitled"), "T");
}
