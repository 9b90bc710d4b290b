use flowflow::tab_pins::{
    load_tab_picker, pinned_tabs, pins_summary, pins_to_store, set_insert, set_of, set_remove,
    toggle_tab, after_apply, apply_enabled, BindingEntry,
};
use flowflow::text::{
    byte_prefix, char_prefix, concatenated, contains_text, decimal_string, entered, has_text,
    lang_is_fr, same_text, text_less,
};
use flowflow::text_set::{insert_text, position_of, toggle_text};

fn strings(v: &[&str]) -> Vec<String> {
    v.iter().map(|s| s.to_string()).collect()
}

fn sorted_set(v: &Vec<String>) -> Vec<String> {
    let mut s = v.clone();
    s.sort();
    s
}

#[test]
fn text_helpers() {
    assert_eq!(decimal_string(0), "0");
    assert_eq!(decimal_string(1234567), "1234567");
    assert_eq!(char_prefix("héllo", 2), "hé");
    assert_eq!(char_prefix("hi", 5), "hi");
    assert_eq!(byte_prefix("héllo", 2), None);
    assert_eq!(byte_prefix("héllo", 3), Some("hé"));
    assert!(same_text("a", "a"));
    assert!(!same_text("a", "b"));
    assert!(contains_text("pricing idea", "ing i"));
    assert!(!contains_text("abc", "abd"));
    assert!(text_less("abc", "abd"));
    assert!(text_less("ab", "abc"));
    assert!(!text_less("b", "abc"));
    assert!(lang_is_fr("fr"));
    assert!(!lang_is_fr("fr-FR"));
    assert_eq!(concatenated("a", "b"), "ab");
    assert_eq!(entered("  name  "), Some("name".to_string()));
    assert_eq!(entered(" \t "), None);
    assert!(has_text(" x "));
    assert!(!has_text("   "));
}

#[test]
fn toggling_twice_restores_the_set() {
    let start = strings(&["a", "b"]);
    let once = toggle_text(&start, "c");
    assert_eq!(sorted_set(&once), strings(&["a", "b", "c"]));
    let twice = toggle_text(&once, "c");
    assert_eq!(sorted_set(&twice), sorted_set(&start));
    let removed = toggle_text(&start, "a");
    assert_eq!(removed, strings(&["b"]));
    assert_eq!(position_of(&start, "b"), Some(1));
    assert_eq!(position_of(&start, "z"), None);
}

#[test]
fn inserting_a_held_text_changes_nothing() {
    let start = strings(&["a", "b"]);
    assert_eq!(insert_text(&start, "a"), start);
    assert_eq!(insert_text(&start, "c"), strings(&["a", "b", "c"]));
}

#[test]
fn ordered_set_insert_and_remove() {
    let mut s: Vec<String> = vec![];
    set_insert(&mut s, "b");
    set_insert(&mut s, "a");
    set_insert(&mut s, "c");
    set_insert(&mut s, "b");
    assert_eq!(s, strings(&["a", "b", "c"]));
    assert!(set_remove(&mut s, "b"));
    assert!(!set_remove(&mut s, "z"));
    assert_eq!(s, strings(&["a", "c"]));
    assert_eq!(set_of(&strings(&["z", "x", "z", "y"])), strings(&["x", "y", "z"]));
}

fn entry(id: &str, sheet: Option<&str>) -> BindingEntry {
    BindingEntry { spreadsheet_id: id.to_string(), sheet: sheet.map(|s| s.to_string()) }
}

#[test]
fn pins_of_one_spreadsheet() {
    let entries = vec![entry("s1", Some("Q1")), entry("s2", Some("X")), entry("s1", None), entry("s1", Some("Q3"))];
    assert_eq!(pinned_tabs(&entries, "s1"), strings(&["Q1", "Q3"]));
    assert_eq!(pinned_tabs(&entries, "s3"), Vec::<String>::new());
}

#[test]
fn picker_checks_pins_or_every_tab() {
    let tabs = strings(&["Q3", "Q1", "Q2"]);
    let unpinned = load_tab_picker("s9", tabs.clone(), &vec![entry("s1", Some("Q1"))]);
    assert_eq!(unpinned.checked, strings(&["Q1", "Q2", "Q3"]));
    assert_eq!(unpinned.tabs, tabs);
    assert_eq!(pins_to_store(&unpinned), Vec::<String>::new());
    let mut pinned = load_tab_picker("s1", tabs.clone(), &vec![entry("s1", Some("Q2"))]);
    assert_eq!(pinned.checked, strings(&["Q2"]));
    assert_eq!(pins_to_store(&pinned), strings(&["Q2"]));
    toggle_tab(&mut pinned, "Q1");
    assert_eq!(pinned.checked, strings(&["Q1", "Q2"]));
    toggle_tab(&mut pinned, "Q1");
    assert_eq!(pinned.checked, strings(&["Q2"]));
    toggle_tab(&mut pinned, "Q2");
    assert_eq!(pins_to_store(&pinned), Vec::<String>::new());
}

#[test]
fn pins_summary_joins_with_dots() {
    assert_eq!(pins_summary(&vec![]), None);
    assert_eq!(pins_summary(&strings(&["A"])), Some("A".to_string()));
    assert_eq!(pins_summary(&strings(&["A", "B", "C"])), Some("A · B · C".to_string()));
}

#[test]
fn a_stale_pin_never_arms_an_unchecked_tab() {
    let tabs = strings(&["A", "B"]);
    let picker = load_tab_picker("s1", tabs, &vec![entry("s1", Some("A")), entry("s1", Some("Z"))]);
    assert_eq!(picker.checked, strings(&["A", "Z"]));
    assert_eq!(pins_to_store(&picker), strings(&["A", "Z"]));
    let mut all = load_tab_picker("s1", strings(&["A", "B"]), &vec![entry("s1", Some("A")), entry("s1", Some("Z"))]);
    toggle_tab(&mut all, "B");
    assert_eq!(pins_to_store(&all), Vec::<String>::new());
}

#[test]
fn unbinding_closes_only_its_own_editor() {
    let open = load_tab_picker("s1", strings(&["A"]), &vec![]);
    assert!(flowflow::tab_pins::picker_after_unbind(Some(open), "s1").is_none());
    let other = load_tab_picker("s2", strings(&["A"]), &vec![]);
    let kept = flowflow::tab_pins::picker_after_unbind(Some(other), "s1");
    assert_eq!(kept.map(|p| p.spreadsheet_id), Some("s2".to_string()));
    assert!(flowflow::tab_pins::tabs_read_allowed(&None));
    assert!(!flowflow::tab_pins::tabs_read_allowed(&Some("s1".to_string())));
}

#[test]
fn applying_pins_closes_the_editor_or_shows_the_refusal() {
    let tabs = vec!["A".to_string(), "B".to_string()];
    let mut picker = load_tab_picker("s1", tabs, &Vec::new());
    assert!(apply_enabled(&picker));
    toggle_tab(&mut picker, "A");
    toggle_tab(&mut picker, "B");
    assert!(!apply_enabled(&picker));
    toggle_tab(&mut picker, "B");
    assert!(apply_enabled(&picker));

    let (open, status) = after_apply(Some(picker), Err("quota".to_string()));
    assert!(open.is_some());
    assert_eq!(status, Some("quota".to_string()));
    let (open, status) = after_apply(open, Ok(()));
    assert!(open.is_none());
    assert_eq!(status, None);
}
