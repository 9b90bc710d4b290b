use flowflow::feed::{flip_filter, narrowed, search_hint, FilterKind, SearchHint};
use flowflow::feed::{
    build_feed, filter_placeholder_key, keep_threads, next_visible_count, note_matches,
    note_passes, sort_newest_first, thread_matches, FeedItem, NoteFilters, NoteRow, ThreadRow,
    NOTES_PAGE,
};

fn note(id: &str, title: Option<&str>, content: &str, tags: &[&str], voice: bool, at: &str) -> NoteRow {
    NoteRow {
        id: id.to_string(),
        title: title.map(|t| t.to_string()),
        content: content.to_string(),
        tags: tags.iter().map(|t| t.to_string()).collect(),
        is_voice: voice,
        created_at: at.to_string(),
    }
}

fn filters(voice: bool, reminder: bool, document: bool, thread: bool) -> NoteFilters {
    NoteFilters { voice, reminder, document, thread }
}

#[test]
fn filters_count_and_emptiness() {
    assert!(filters(false, false, false, false).is_empty());
    assert_eq!(filters(true, false, true, false).count(), 2);
    assert!(!filters(false, false, false, true).is_empty());
}

#[test]
fn placeholder_names_a_single_toggle() {
    assert_eq!(filter_placeholder_key(filters(true, false, false, false)), "note-filter-voice");
    assert_eq!(filter_placeholder_key(filters(false, true, false, false)), "note-filter-reminder");
    assert_eq!(filter_placeholder_key(filters(false, false, true, false)), "note-filter-document");
    assert_eq!(filter_placeholder_key(filters(false, false, false, true)), "note-filter-thread");
    assert_eq!(filter_placeholder_key(filters(true, true, false, false)), "");
    assert_eq!(filter_placeholder_key(filters(false, false, false, false)), "");
}

#[test]
fn search_looks_in_title_content_and_tags() {
    let n = note("1", Some("Pricing Idea"), "call Bob", &["Work"], false, "2024-01-01 10:00:00");
    assert!(note_matches(&n, ""));
    assert!(note_matches(&n, "pricing"));
    assert!(note_matches(&n, "bob"));
    assert!(note_matches(&n, "work"));
    assert!(!note_matches(&n, "alice"));
    let untitled = note("2", None, "x", &[], false, "2024-01-01 10:00:00");
    assert!(!note_matches(&untitled, "idea"));
}

#[test]
fn toggles_keep_matching_notes_only() {
    let voice = note("v", None, "a", &[], true, "2024-01-01 10:00:00");
    let typed = note("t", None, "a", &[], false, "2024-01-01 10:00:00");
    let none: Vec<String> = vec![];
    let rem = vec!["t".to_string()];
    assert!(note_passes(&voice, filters(true, false, false, false), &none, &none));
    assert!(!note_passes(&typed, filters(true, false, false, false), &none, &none));
    assert!(note_passes(&typed, filters(false, true, false, false), &rem, &none));
    assert!(!note_passes(&voice, filters(false, true, false, false), &rem, &none));
    assert!(!note_passes(&typed, filters(false, false, false, true), &none, &none));
    assert!(keep_threads(filters(false, false, false, false)));
    assert!(keep_threads(filters(false, false, false, true)));
    assert!(!keep_threads(filters(true, false, false, false)));
}

#[test]
fn thread_search_uses_its_title() {
    let t = ThreadRow { title: "Trip to Rome".to_string(), modified_at: "2024-01-02".to_string() };
    assert!(thread_matches(&t, "rome"));
    assert!(thread_matches(&t, ""));
    assert!(!thread_matches(&t, "paris"));
}

#[test]
fn feed_is_newest_first_and_filtered() {
    let notes = vec![
        note("a", Some("Alpha"), "first", &[], false, "2024-01-01 10:00:00"),
        note("b", Some("Beta"), "second", &[], true, "2024-03-01 10:00:00"),
        note("c", Some("Gamma"), "third", &[], false, "2024-02-01 10:00:00"),
    ];
    let threads = vec![ThreadRow { title: "Story".to_string(), modified_at: "2024-02-15 10:00:00".to_string() }];
    let none: Vec<String> = vec![];
    let all = build_feed(&notes, &threads, "", filters(false, false, false, false), &none, &none);
    assert_eq!(all, vec![FeedItem::Note(1), FeedItem::Thread(0), FeedItem::Note(2), FeedItem::Note(0)]);
    let voice = build_feed(&notes, &threads, "", filters(true, false, false, false), &none, &none);
    assert_eq!(voice, vec![FeedItem::Note(1)]);
    let only_threads = build_feed(&notes, &threads, "", filters(false, false, false, true), &none, &none);
    assert_eq!(only_threads, vec![FeedItem::Thread(0)]);
    let searched = build_feed(&notes, &threads, "GAMMA", filters(false, false, false, false), &none, &none);
    assert_eq!(searched, vec![FeedItem::Note(2)]);
}

#[test]
fn sorting_keeps_every_item_once() {
    let notes = vec![
        note("a", None, "", &[], false, "2024-01-01 10:00:00"),
        note("b", None, "", &[], false, "2024-01-03 10:00:00"),
    ];
    let threads = vec![ThreadRow { title: String::new(), modified_at: "2024-01-02 10:00:00".to_string() }];
    let items = vec![FeedItem::Note(0), FeedItem::Note(1), FeedItem::Thread(0)];
    assert_eq!(
        sort_newest_first(&items, &notes, &threads),
        vec![FeedItem::Note(1), FeedItem::Thread(0), FeedItem::Note(0)]
    );
}

#[test]
fn paging_adds_one_page_up_to_the_end() {
    assert_eq!(NOTES_PAGE, 30);
    assert_eq!(next_visible_count(30, 100), 60);
    assert_eq!(next_visible_count(90, 100), 100);
    assert_eq!(next_visible_count(100, 100), 100);
    assert_eq!(next_visible_count(120, 100), 120);
}

#[test]
fn rows_of_the_same_time_keep_their_order() {
    let notes = vec![
        note("a", None, "", &[], false, "2024-01-01 10:00:00"),
        note("b", None, "", &[], false, "2024-01-01 10:00:00"),
    ];
    let threads = vec![ThreadRow { title: String::new(), modified_at: "2024-01-01 10:00:00".to_string() }];
    let none: Vec<String> = vec![];
    let feed = build_feed(&notes, &threads, "", filters(false, false, false, false), &none, &none);
    assert_eq!(feed, vec![FeedItem::Note(0), FeedItem::Note(1), FeedItem::Thread(0)]);
}

#[test]
fn more_toggles_never_widen_the_feed() {
    let notes = vec![
        note("a", None, "x", &[], true, "2024-01-01 10:00:00"),
        note("b", None, "x", &[], false, "2024-01-02 10:00:00"),
        note("c", None, "x", &[], true, "2024-01-03 10:00:00"),
    ];
    let threads: Vec<ThreadRow> = vec![];
    let rem = vec!["c".to_string(), "b".to_string()];
    let none: Vec<String> = vec![];
    let voice = build_feed(&notes, &threads, "", filters(true, false, false, false), &rem, &none);
    let voice_and_reminder = build_feed(&notes, &threads, "", filters(true, true, false, false), &rem, &none);
    assert_eq!(voice, vec![FeedItem::Note(2), FeedItem::Note(0)]);
    assert_eq!(voice_and_reminder, vec![FeedItem::Note(2)]);
    assert!(voice_and_reminder.iter().all(|x| voice.contains(x)));
}

#[test]
fn search_placeholder_and_toggles() {
    assert!(matches!(search_hint(filters(false, false, false, false)), SearchHint::Plain));
    assert!(matches!(search_hint(filters(false, true, false, false)), SearchHint::Named("note-filter-reminder")));
    assert!(matches!(search_hint(filters(true, true, true, false)), SearchHint::Count(3)));
    assert!(narrowed("x", filters(false, false, false, false)));
    assert!(narrowed("", filters(false, false, true, false)));
    assert!(!narrowed("", filters(false, false, false, false)));
    let f = flip_filter(filters(false, false, false, false), FilterKind::Thread);
    assert_eq!(f, filters(false, false, false, true));
    assert_eq!(flip_filter(f, FilterKind::Thread), filters(false, false, false, false));
}
