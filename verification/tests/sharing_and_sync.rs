use flowflow::conflicts::{can_restore, clip, conflicts_changed, label, preview, SyncConflict};
use flowflow::shared::{can_append, can_send, is_editing, load_outcome, shared_date, Load};
use flowflow::spaces::{
    can_remove_member, join_error_key, leave_error_shown, link_action, link_button_key, link_kind,
    member_initials, member_name, panel_for, plus_opens_invite, share_error_key,
    shows_member_count, space_menu, LinkAction, LinkKind, Panel, ShareError, SpaceError,
    SpaceMenuItem,
};
use flowflow::sync::{
    done_summary, error_line, host_poll, join_button_key, join_request, next_tick, partial_line,
    peer_initial, peers_check_due, same_status, started_status, status_line, sync_now_offered,
    HostPoll, PairingStatus, SyncActivity,
};

fn some(s: &str) -> Option<String> {
    Some(s.to_string())
}

#[test]
fn join_errors_send_the_user_somewhere() {
    assert_eq!(join_error_key(&SpaceError::Gone), "space-join-dead-code");
    assert_eq!(join_error_key(&SpaceError::Offline), "space-join-offline");
    assert_eq!(join_error_key(&SpaceError::Refused), "space-join-no-account");
    assert_eq!(join_error_key(&SpaceError::NoBackend), "space-join-no-backend");
    assert_eq!(join_error_key(&SpaceError::Limit), "space-join-full");
    assert_eq!(join_error_key(&SpaceError::ReadOnly), "space-join-failed");
    assert_eq!(join_error_key(&SpaceError::Other), "space-join-failed");
    assert!(!leave_error_shown(&SpaceError::Gone));
    assert!(leave_error_shown(&SpaceError::Offline));
}

#[test]
fn share_errors() {
    assert_eq!(share_error_key(&ShareError::Refused), "share-refused");
    assert_eq!(share_error_key(&ShareError::NoBackend), "share-offline");
    assert_eq!(share_error_key(&ShareError::Gone), "share-not-found");
    assert_eq!(share_error_key(&ShareError::Other), "share-offline");
}

#[test]
fn space_menus_by_role() {
    assert_eq!(
        space_menu(true),
        vec![SpaceMenuItem::Invite, SpaceMenuItem::Members, SpaceMenuItem::Rename, SpaceMenuItem::NewTheme, SpaceMenuItem::Stop]
    );
    assert_eq!(space_menu(false), vec![SpaceMenuItem::Members, SpaceMenuItem::Leave]);
    assert_eq!(panel_for(SpaceMenuItem::Leave), Panel::Leave);
    assert!(plus_opens_invite(Panel::Closed));
    assert!(!plus_opens_invite(Panel::Invite));
    assert!(can_remove_member(true, false));
    assert!(!can_remove_member(true, true));
    assert!(!can_remove_member(false, false));
    assert!(shows_member_count(2));
    assert!(!shows_member_count(0));
}

#[test]
fn member_rows() {
    assert_eq!(member_name(true, &some("Ann"), "You", "Anonymous"), "You");
    assert_eq!(member_name(false, &some("Ann"), "You", "Anonymous"), "Ann");
    assert_eq!(member_name(false, &None, "You", "Anonymous"), "Anonymous");
    assert_eq!(member_initials("anne"), "AN");
    assert_eq!(member_initials("é"), "É");
}

#[test]
fn pasted_links() {
    assert_eq!(link_kind(&some("c1"), &some("c2")), LinkKind::Share);
    assert_eq!(link_kind(&None, &some("c2")), LinkKind::Space);
    assert_eq!(link_kind(&None, &None), LinkKind::Unknown);
    assert_eq!(link_button_key(LinkKind::Share), "share-open-link");
    assert_eq!(link_button_key(LinkKind::Space), "space-join-button");
    assert!(matches!(link_action(some("c1"), some("c2")), LinkAction::OpenShared { code } if code == "c1"));
    assert!(matches!(link_action(None, some("c2")), LinkAction::JoinSpace { code } if code == "c2"));
    assert!(matches!(link_action(None, None), LinkAction::Invalid));
}

#[test]
fn pairing_host_polls() {
    let waiting = Some(PairingStatus::Waiting);
    assert_eq!(host_poll(&waiting, &PairingStatus::Waiting), HostPoll::Unchanged);
    assert_eq!(host_poll(&None, &PairingStatus::Waiting), HostPoll::Show);
    assert_eq!(
        host_poll(&waiting, &PairingStatus::Paired { device_id: "mac".to_string() }),
        HostPoll::ShowAndReloadPeers
    );
    assert_eq!(host_poll(&waiting, &PairingStatus::Cancelled), HostPoll::ShowAndDropHost);
    let failed = PairingStatus::Failed { message: "x".to_string() };
    assert_eq!(host_poll(&waiting, &failed), HostPoll::ShowAndDropHost);
    assert_eq!(host_poll(&Some(PairingStatus::Failed { message: "x".to_string() }), &failed), HostPoll::Unchanged);
    assert!(same_status(&PairingStatus::Cancelled, &PairingStatus::Cancelled));
    assert!(!same_status(&PairingStatus::Cancelled, &PairingStatus::Waiting));
    assert!(matches!(started_status(Ok(())), PairingStatus::Waiting));
    assert!(matches!(started_status(Err("address in use".to_string())), PairingStatus::Failed { message } if message == "address in use"));
}

#[test]
fn pairing_texts() {
    let paired = PairingStatus::Paired { device_id: "mac-1".to_string() };
    assert_eq!(status_line(&paired, "Paired with", "Failed", "Cancelled", "Waiting"), "Paired with mac-1");
    let failed = PairingStatus::Failed { message: "timeout".to_string() };
    assert_eq!(status_line(&failed, "Paired with", "Failed", "Cancelled", "Waiting"), "Failed: timeout");
    assert_eq!(status_line(&PairingStatus::Waiting, "P", "F", "C", "Waiting"), "Waiting");
    assert_eq!(join_request("  flowflow://pair#x ", false), some("flowflow://pair#x"));
    assert_eq!(join_request("flowflow://pair#x", true), None);
    assert_eq!(join_request("   ", false), None);
    assert_eq!(join_button_key(true, true), "sync-connecting");
    assert_eq!(join_button_key(false, true), "sync-confirm-pairing");
    assert_eq!(join_button_key(false, false), "sync-connect");
    assert_eq!(peer_initial("mac"), "M");
    assert_eq!(peer_initial(""), "?");
}

#[test]
fn sync_status_card() {
    assert_eq!(done_summary("10:00", 3, 5, 0, "conflicts"), "10:00 · ↑3 ↓5");
    assert_eq!(done_summary("10:00", 3, 5, 2, "conflicts"), "10:00 · ↑3 ↓5 · 2 conflicts");
    assert_eq!(error_line("Error at", "10:00", "offline"), "Error at 10:00 · offline");
    assert_eq!(partial_line("Partly failed:", "notes"), "Partly failed: notes");
    assert!(sync_now_offered(&SyncActivity::Idle, true));
    assert!(!sync_now_offered(&SyncActivity::Idle, false));
    assert!(!sync_now_offered(&SyncActivity::Syncing, true));
    let done = SyncActivity::Done { at: "t".to_string(), pushed: 1, applied: 1, conflicts: 0, partial: None };
    assert!(sync_now_offered(&done, true));
    assert!(peers_check_due(0));
    assert!(!peers_check_due(3));
    assert!(peers_check_due(8));
    assert_eq!(next_tick(5), 6);
    assert_eq!(next_tick(u32::MAX), 0);
}

fn conflict(kind: &str, json: &str) -> SyncConflict {
    SyncConflict { id: 1, entity_kind: kind.to_string(), entity_id: "42".to_string(), losing_snapshot_json: json.to_string() }
}

#[test]
fn conflict_rows() {
    let c = conflict("note", r#"{"title":"Groceries","content":"milk","name":"n"}"#);
    assert_eq!(label(&c), "Groceries");
    assert_eq!(preview(&c), "milk");
    assert!(can_restore(&c));
    let folder = conflict("folder", r#"{"name":"Work","title":""}"#);
    assert_eq!(label(&folder), "folder 42");
    assert_eq!(preview(&folder), "Work");
    assert!(!can_restore(&folder));
    let text = conflict("attachment", r#"{"content_text":"pdf text","content":5}"#);
    assert_eq!(preview(&text), "pdf text");
    let raw = conflict("note", "not json");
    assert_eq!(label(&raw), "note 42");
    assert_eq!(preview(&raw), "not json");
    let long = format!(r#"{{"content":"{}"}}"#, "é".repeat(130));
    assert_eq!(preview(&conflict("note", &long)), format!("{}…", "é".repeat(120)));
    assert_eq!(clip(&"a".repeat(120)), "a".repeat(120));
    assert!(conflicts_changed(usize::MAX, 0));
    assert!(!conflicts_changed(2, 2));
}

#[test]
fn shared_view() {
    assert!(matches!(load_outcome::<u8>(Ok(3), String::new()), Load::Ready(3)));
    assert!(matches!(load_outcome::<u8>(Err(ShareError::Gone), "gone".to_string()), Load::NotFound));
    assert!(matches!(load_outcome::<u8>(Err(ShareError::Other), "boom".to_string()), Load::Failed(m) if m == "boom"));
    assert_eq!(shared_date("2024-05-10T10:00:00Z"), "2024-05-10");
    assert_eq!(shared_date("2024"), "");
    assert!(can_append("thread"));
    assert!(!can_append("note"));
    assert!(is_editing(&Some(("n1".to_string(), "body".to_string())), "n1"));
    assert!(!is_editing(&None, "n1"));
    assert!(can_send(false, " hi "));
    assert!(!can_send(true, "hi"));
    assert!(!can_send(false, "  "));
}
