//! The keyboard shortcuts the Mac app lists in its settings.

use vstd::prelude::*;

verus! {

/// One row of the list: the keys to press and the text key of what they do.
#[derive(Debug)]
pub struct ShortcutRow {
    pub keys: Vec<&'static str>,
    pub label_key: &'static str,
}

/// A row's keys and label as texts.
pub open spec fn row_view(r: ShortcutRow) -> (Seq<Seq<char>>, Seq<char>) {
    (r.keys@.map_values(|k: &'static str| k@), r.label_key@)
}

/// The rows, in the order the settings show them.
pub open spec fn shortcut_table() -> Seq<(Seq<Seq<char>>, Seq<char>)> {
    seq![
        (seq!["⌘"@, "N"@], "shortcut-new-note"@),
        (seq!["⇧⌘Enter"@, "⇧⌃Enter"@], "shortcut-new-chat"@),
        (seq!["⌘"@, "F"@], "shortcut-search"@),
        (seq!["⌘"@, ","@], "shortcut-settings"@),
        (seq!["⌘⌘"@, "⌘1"@, "⌘2"@], "shortcut-menus"@),
        (seq!["⌃"@, "⌃"@], "shortcut-theme-picker"@),
        (seq!["⌘"@, "←"@], "shortcut-back"@),
        (seq!["⌘"@, "→"@], "shortcut-forward"@),
        (seq!["Esc"@], "shortcut-escape"@),
        (seq!["Esc"@, "Esc"@], "shortcut-escape-double"@),
        (seq!["Enter"@], "shortcut-send"@),
        (seq!["Shift"@, "Enter"@], "shortcut-newline"@),
    ]
}

fn row(keys: Vec<&'static str>, label_key: &'static str) -> (r: ShortcutRow)
    ensures
        r.keys == keys,
        r.label_key == label_key,
{
    ShortcutRow { keys, label_key }
}

/// The shortcut list.
pub fn shortcut_rows() -> (r: Vec<ShortcutRow>)
    ensures
        r@.map_values(|x: ShortcutRow| row_view(x)) == shortcut_table(),
{
    let mut v: Vec<ShortcutRow> = Vec::new();
    v.push(row(vec!["⌘", "N"], "shortcut-new-note"));
    v.push(row(vec!["⇧⌘Enter", "⇧⌃Enter"], "shortcut-new-chat"));
    v.push(row(vec!["⌘", "F"], "shortcut-search"));
    v.push(row(vec!["⌘", ","], "shortcut-settings"));
    v.push(row(vec!["⌘⌘", "⌘1", "⌘2"], "shortcut-menus"));
    v.push(row(vec!["⌃", "⌃"], "shortcut-theme-picker"));
    v.push(row(vec!["⌘", "←"], "shortcut-back"));
    v.push(row(vec!["⌘", "→"], "shortcut-forward"));
    v.push(row(vec!["Esc"], "shortcut-escape"));
    v.push(row(vec!["Esc", "Esc"], "shortcut-escape-double"));
    v.push(row(vec!["Enter"], "shortcut-send"));
    v.push(row(vec!["Shift", "Enter"], "shortcut-newline"));
    assert forall|i: int| 0 <= i < 12 implies #[trigger] row_view(v@[i]) == shortcut_table()[i] by {
        assert(row_view(v@[i]).0 =~= shortcut_table()[i].0);
    }
    assert(v@.map_values(|x: ShortcutRow| row_view(x)) =~= shortcut_table());
    v
}

} // verus!
