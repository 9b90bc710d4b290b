use flowflow::account::{device_label, peer_name_fallback, short_id, take_notice};
use flowflow::chat_provider::{chat_step, ChatAction, ChatEvent, ChatSettings, Connection};
use flowflow::onboarding::{account_url, code_valid_at, is_later, valid_code, valid_code_at};
use flowflow::settings::{
    count_then, debug_flag_value, flag_is, key_to_store, label_detail, max_sources, number_text,
    slider_value, with_count, DEFAULT_MAX_SOURCES,
};
use flowflow::sheets::{connector_initial, sheet_url, short_date};
use flowflow::transcription::{
    clears_choice_on_delete, dictionary_entry, download_label, download_percent,
    download_verifying, engine_banner, engine_label, key_checked, key_save_enabled, model_row,
    remove_entry, shows_heard, size_mb, KeyState, ModelRow, SttProvider,
};
use flowflow::dates::Stamp;

fn some(s: &str) -> Option<String> {
    Some(s.to_string())
}

#[test]
fn max_sources_reads_or_defaults() {
    assert_eq!(DEFAULT_MAX_SOURCES, 8);
    assert_eq!(max_sources(&None), 8);
    assert_eq!(max_sources(&some("12")), 12);
    assert_eq!(max_sources(&some("+5")), 5);
    assert_eq!(max_sources(&some("-3")), -3);
    assert_eq!(max_sources(&some(" 12")), 8);
    assert_eq!(max_sources(&some("twelve")), 8);
    assert_eq!(max_sources(&some("99999999999999999999")), 8);
    assert_eq!(slider_value("7"), Some(7));
    assert_eq!(slider_value(""), None);
}

#[test]
fn stored_values_and_texts() {
    assert!(flag_is(&some("1"), "1"));
    assert!(!flag_is(&some("0"), "1"));
    assert!(!flag_is(&None, "1"));
    assert_eq!(debug_flag_value(true), "1");
    assert_eq!(debug_flag_value(false), "0");
    assert_eq!(key_to_store("  sk-123 "), some("sk-123"));
    assert_eq!(key_to_store("   "), None);
    assert_eq!(number_text(8), "8");
    assert_eq!(number_text(-42), "-42");
    assert_eq!(number_text(i64::MIN), "-9223372036854775808");
    assert_eq!(with_count("Delete audio", 3), "Delete audio (3)");
    assert_eq!(count_then(4, "deleted"), "4 deleted");
    assert_eq!(label_detail("Error", "disk full"), "Error: disk full");
}

#[test]
fn account_device_names() {
    assert_eq!(short_id("abc"), "abc");
    assert_eq!(short_id("0123456789abcdef"), "0123456789abcdef");
    assert_eq!(short_id("0123456789abcdefXYZ"), "0123456789abcdef...");
    assert_eq!(device_label("me", &None, "me", "My Mac", &None), "My Mac");
    assert_eq!(device_label("d2", &some("iPhone"), "me", "My Mac", &some("Peer")), "iPhone");
    assert_eq!(device_label("d2", &some("  "), "me", "My Mac", &some("Peer")), "Peer");
    assert_eq!(device_label("0123456789abcdefXYZ", &None, "me", "My Mac", &None), "0123456789abcdef...");
}

#[test]
fn the_only_named_peer_names_the_other_device() {
    let devices = vec!["me".to_string(), "d2".to_string()];
    assert_eq!(peer_name_fallback(&devices, "me", &vec![None, some("Phone")]), some("Phone"));
    assert_eq!(peer_name_fallback(&devices, "me", &vec![some("A"), some("B")]), None);
    let three = vec!["me".to_string(), "d2".to_string(), "d3".to_string()];
    assert_eq!(peer_name_fallback(&three, "me", &vec![some("Phone")]), None);
}

fn settings(connection: Connection, selected: bool) -> ChatSettings {
    ChatSettings { connection, chatgpt_selected: selected, error: Some("old".to_string()) }
}

#[test]
fn chatgpt_sign_in_flow() {
    let (s, a) = chat_step(settings(Connection::Disconnected, false), ChatEvent::ConnectPressed, false);
    assert_eq!(a, ChatAction::StoreChatgptAndLogin);
    assert!(s.chatgpt_selected && s.error.is_none());
    let (s, a) = chat_step(
        s,
        ChatEvent::LoginStarted { verify_url: "https://x".to_string(), user_code: "AB-12".to_string() },
        false,
    );
    assert_eq!(a, ChatAction::PollLogin);
    assert!(matches!(&s.connection, Connection::Pending { user_code, .. } if user_code == "AB-12"));
    let (s, a) = chat_step(s, ChatEvent::LoginConfirmed, false);
    assert_eq!(a, ChatAction::Nothing);
    assert!(matches!(s.connection, Connection::Connected));
    let (s, a) = chat_step(s, ChatEvent::DisconnectPressed, false);
    assert_eq!(a, ChatAction::SignOut);
    assert!(matches!(s.connection, Connection::Disconnected));
}

#[test]
fn chatgpt_failures_and_switches() {
    let (s, _) = chat_step(
        settings(Connection::Disconnected, true),
        ChatEvent::LoginFailed { message: "denied".to_string() },
        false,
    );
    assert_eq!(s.error, some("denied"));
    let (s, a) = chat_step(s, ChatEvent::LoginConfirmed, false);
    assert_eq!(a, ChatAction::Nothing);
    assert!(matches!(s.connection, Connection::Disconnected));
    let (s, a) = chat_step(settings(Connection::Connected, false), ChatEvent::UseChatgptPressed, false);
    assert_eq!(a, ChatAction::StoreChatgpt);
    let (s2, a) = chat_step(s, ChatEvent::UseOpenaiPressed, false);
    assert_eq!(a, ChatAction::Nothing);
    assert!(s2.chatgpt_selected);
    let (s3, a) = chat_step(s2, ChatEvent::UseOpenaiPressed, true);
    assert_eq!(a, ChatAction::StoreOpenai);
    assert!(!s3.chatgpt_selected);
}

#[test]
fn account_pages() {
    assert_eq!(account_url("fr", "/link"), "https://account.flowflow.be/fr/link");
    assert_eq!(account_url("en", "/"), "https://account.flowflow.be/");
}

fn at(day_number: i32, hour: u32, minute: u32) -> Stamp {
    Stamp { year: 2024, month: 5, day: 10, hour, minute, second: 0, nanos: 0, day_number }
}

#[test]
fn link_codes_expire() {
    let now = at(739016, 12, 0);
    assert!(is_later(&at(739016, 12, 1), &now));
    assert!(!is_later(&now, &now));
    assert!(code_valid_at("2024-05-10T13:00:00+00:00", &now));
    assert!(code_valid_at("2024-05-10T14:00:00+01:00", &now));
    assert!(!code_valid_at("2024-05-10T11:00:00Z", &now));
    assert!(!code_valid_at("whenever", &now));
    let code = Some(("TOKEN".to_string(), "2024-05-10T13:00:00Z".to_string()));
    assert_eq!(valid_code_at(code.clone(), &now), code);
    assert_eq!(valid_code_at(code, &at(739017, 0, 0)), None);
    assert_eq!(valid_code(Some(("T".to_string(), "not a date".to_string()))), None);
    assert_eq!(valid_code(Some(("T".to_string(), "2999-01-01T00:00:00Z".to_string()))).map(|c| c.0), some("T"));
}

#[test]
fn spreadsheet_texts() {
    assert_eq!(sheet_url("abc"), "https://docs.google.com/spreadsheets/d/abc/edit");
    assert_eq!(short_date("2024-05-10T10:30:15.000Z"), "2024-05-10 10:30");
    assert_eq!(short_date("2024-05-10"), "2024-05-10");
    assert_eq!(connector_initial("notion"), "N");
    assert_eq!(connector_initial("ßeta"), "SS");
    assert_eq!(connector_initial(""), "");
}

#[test]
fn model_sizes_and_downloads() {
    assert_eq!(size_mb(150_000_000), "143 MB");
    assert_eq!(size_mb(1_048_575), "0 MB");
    assert_eq!(download_percent(50, 200), 25);
    assert_eq!(download_percent(5, 0), 0);
    assert!(download_verifying(200, 200));
    assert!(!download_verifying(0, 0));
    assert_eq!(download_label(50, 200, "Checking"), "25%");
    assert_eq!(download_label(200, 200, "Checking"), "Checking");
    assert_eq!(model_row(true, true, true, true, true), ModelRow::Downloading);
    assert_eq!(model_row(false, true, true, false, false), ModelRow::Active);
    assert_eq!(model_row(false, true, false, false, false), ModelRow::Downloaded);
    assert_eq!(model_row(false, false, false, false, false), ModelRow::Offer);
    assert_eq!(model_row(false, false, false, true, false), ModelRow::Quiet);
    assert!(clears_choice_on_delete(&some("base"), "base"));
    assert!(!clears_choice_on_delete(&some("base"), "tiny"));
}

#[test]
fn engine_banner_never_claims_readiness() {
    let cloud = engine_banner(SttProvider::Soniox, &some(" key "), "", false);
    assert_eq!(cloud.name_key, "settings-stt-cloud");
    assert_eq!(cloud.blocker_key, None);
    let no_key = engine_banner(SttProvider::Soniox, &some("  "), "", false);
    assert_eq!(no_key.blocker_key, Some("stt-error-soniox-key"));
    let local = engine_banner(SttProvider::WhisperLocal, &None, "base", true);
    assert_eq!(local.model, some("base"));
    assert_eq!(engine_label("Local", &local.model), "Local · base");
    let missing = engine_banner(SttProvider::WhisperLocal, &None, "base", false);
    assert_eq!(missing.blocker_key, Some("stt-error-no-model"));
    assert_eq!(engine_label("Local", &missing.model), "Local");
}

#[test]
fn soniox_key_form() {
    assert!(key_save_enabled(&KeyState::Idle, "k"));
    assert!(!key_save_enabled(&KeyState::Checking, "k"));
    assert!(!key_save_enabled(&KeyState::Valid, " "));
    assert!(matches!(key_checked(Ok(())), KeyState::Valid));
    assert!(matches!(key_checked(Err("bad".to_string())), KeyState::Invalid(e) if e == "bad"));
}

#[test]
fn dictionary_entries() {
    assert_eq!(dictionary_entry(" flo flo ", " FlowFlow "), Some(("flo flo".to_string(), "FlowFlow".to_string())));
    assert_eq!(dictionary_entry("", "FlowFlow"), Some(("FlowFlow".to_string(), "FlowFlow".to_string())));
    assert_eq!(dictionary_entry("x", "  "), None);
    assert!(shows_heard("flo", "Flow"));
    assert!(!shows_heard("Flow", "Flow"));
    let mut v = vec![1, 2, 3];
    remove_entry(&mut v, 5);
    assert_eq!(v, vec![1, 2, 3]);
    remove_entry(&mut v, 1);
    assert_eq!(v, vec![1, 3]);
}

#[test]
fn waiting_for_connector_consent() {
    let list = vec![
        flowflow::sheets::ConnectorState { provider: "google".to_string(), connected: false },
        flowflow::sheets::ConnectorState { provider: "notion".to_string(), connected: true },
    ];
    assert!(flowflow::sheets::is_connected(&list, "notion"));
    assert!(!flowflow::sheets::is_connected(&list, "google"));
    assert_eq!(
        flowflow::sheets::connect_wait(3, &Some(list), "notion"),
        flowflow::sheets::ConnectWait::Connected
    );
    assert_eq!(flowflow::sheets::connect_wait(3, &None, "notion"), flowflow::sheets::ConnectWait::Again);
    assert_eq!(flowflow::sheets::connect_wait(150, &None, "notion"), flowflow::sheets::ConnectWait::TimedOut);
    assert_eq!(flowflow::sheets::toggle_sheet_list(true), (false, true));
    assert_eq!(flowflow::sheets::toggle_sheet_list(false), (true, false));
}

#[test]
fn one_time_notice() {
    assert_eq!(take_notice(some("Mac joined")), (some("Mac joined"), true));
    assert_eq!(take_notice(some("")), (None, false));
    assert_eq!(take_notice(None), (None, false));
}
