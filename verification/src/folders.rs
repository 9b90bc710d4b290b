//! The themes (folders) of the sidebar: the row menus, where a rename or a
//! new sub-theme goes, which themes a theme may move under, and what each
//! row shows.

use crate::text::{decimal, decimal_string, opt_text, push_str, same_text, texts};
use vstd::prelude::*;

verus! {

/// The row whose menu is open: one menu at a time in the whole sidebar.
#[derive(Debug)]
pub enum RowMenu {
    Note(String),
    Folder(String),
    Space(String),
    Conversation(String),
}

/// A row menu as plain values: which kind of row, and its id.
pub open spec fn row_menu_view(m: RowMenu) -> (int, Seq<char>) {
    match m {
        RowMenu::Note(id) => (0, id@),
        RowMenu::Folder(id) => (1, id@),
        RowMenu::Space(id) => (2, id@),
        RowMenu::Conversation(id) => (3, id@),
    }
}

/// Whether two row menus are the same row's.
pub fn same_row_menu(a: &RowMenu, b: &RowMenu) -> (r: bool)
    ensures
        r == (row_menu_view(*a) == row_menu_view(*b)),
{
    match (a, b) {
        (RowMenu::Note(x), RowMenu::Note(y)) => same_text(x.as_str(), y.as_str()),
        (RowMenu::Folder(x), RowMenu::Folder(y)) => same_text(x.as_str(), y.as_str()),
        (RowMenu::Space(x), RowMenu::Space(y)) => same_text(x.as_str(), y.as_str()),
        (RowMenu::Conversation(x), RowMenu::Conversation(y)) => same_text(x.as_str(), y.as_str()),
        _ => false,
    }
}

/// Whether the open menu is this row's.
pub fn menu_is_open(open: &Option<RowMenu>, row: &RowMenu) -> (r: bool)
    ensures
        r == (open is Some && row_menu_view(open->0) == row_menu_view(*row)),
{
    match open {
        Some(m) => same_row_menu(m, row),
        None => false,
    }
}

/// The "..." button of a row closes its own menu when it is open, and
/// opens it (closing any other) otherwise.
pub fn toggle_row_menu(open: Option<RowMenu>, row: RowMenu) -> (r: Option<RowMenu>)
    ensures
        (open is Some && row_menu_view(open->0) == row_menu_view(row)) ==> r is None,
        !(open is Some && row_menu_view(open->0) == row_menu_view(row)) ==> r == Some(row),
{
    if menu_is_open(&open, &row) {
        None
    } else {
        Some(row)
    }
}

/// A theme mirrored from a shared space is renamed, deleted and given
/// sub-themes through its space (by the space's id and the theme's remote
/// id); a change made only locally would be overwritten by the next pull.
pub fn space_ref(space_id: &Option<String>, remote_id: &Option<String>) -> (r: Option<(String, String)>)
    ensures
        match r {
            Some((s, t)) => opt_text(*space_id) == Some(s@) && opt_text(*remote_id) == Some(t@),
            None => space_id is None || remote_id is None,
        },
{
    match (space_id, remote_id) {
        (Some(s), Some(t)) => Some((String::from_str(s.as_str()), String::from_str(t.as_str()))),
        _ => None,
    }
}

/// A theme of a space may be written to unless its mode is the read-only
/// one.
pub fn writable_mode(mode: &Option<String>, read_mode: &str) -> (r: bool)
    ensures
        r == !(opt_text(*mode) == Some(read_mode@)),
{
    match mode {
        Some(m) => !same_text(m.as_str(), read_mode),
        None => true,
    }
}

/// What the user may do with a theme.
#[derive(Debug, Clone, Copy, PartialEq, Eq, Structural)]
pub enum FolderRight {
    /// The user's own theme, in no space.
    Local,
    /// A theme of a space that the user may only read.
    SpaceReadOnly,
    /// A theme of a space that the user may add to.
    SpaceCollab,
}

/// The lock badge marks a read-only theme of a space.
pub fn shows_lock(right: FolderRight) -> (r: bool)
    ensures
        r == (right == FolderRight::SpaceReadOnly),
{
    right == FolderRight::SpaceReadOnly
}

/// Sharing takes a whole subtree into a space, so it is offered only for a
/// theme in no space yet.
pub fn offers_share(right: FolderRight) -> (r: bool)
    ensures
        r == (right == FolderRight::Local),
{
    right == FolderRight::Local
}

/// The badge key of a space's theme in the spaces settings.
pub fn right_badge_key(right: FolderRight) -> (r: &'static str)
    ensures
        r@ == (if right == FolderRight::SpaceReadOnly {
            "space-badge-readonly"@
        } else {
            "space-badge-collab"@
        }),
{
    match right {
        FolderRight::SpaceReadOnly => "space-badge-readonly",
        _ => "space-badge-collab",
    }
}

/// The share panel starts on "read only" when the user owns a space to
/// share into, and on "collaborative" when a new team will be made.
pub fn share_starts_collab(owned_spaces: usize) -> (r: bool)
    ensures
        r == (owned_spaces == 0),
{
    owned_spaces == 0
}

/// The selection once a theme is deleted: cleared when it was the deleted
/// theme.
pub fn selection_after_delete(selected: &Option<String>, deleted: &str) -> (r: Option<String>)
    ensures
        (opt_text(*selected) == Some(deleted@)) ==> r is None,
        !(opt_text(*selected) == Some(deleted@)) ==> opt_text(r) == opt_text(*selected),
{
    match selected {
        Some(s) => if same_text(s.as_str(), deleted) {
            None
        } else {
            Some(String::from_str(s.as_str()))
        },
        None => None,
    }
}

/// The themes a theme may move under, by position in the flattened tree:
/// every theme but the ones in its own subtree (which would make a cycle).
pub open spec fn allowed_targets(flat: Seq<String>, forbidden: Seq<String>, n: int) -> Seq<usize>
    decreases n,
{
    if n <= 0 {
        Seq::empty()
    } else {
        let before = allowed_targets(flat, forbidden, n - 1);
        if crate::feed::listed(forbidden, flat[n - 1]@) {
            before
        } else {
            before.push((n - 1) as usize)
        }
    }
}

/// The positions, in the flattened tree, of the themes offered as move
/// targets.
pub fn move_targets(flat: &Vec<String>, forbidden: &Vec<String>) -> (r: Vec<usize>)
    ensures
        r@ == allowed_targets(flat@, forbidden@, flat@.len() as int),
{
    let mut out: Vec<usize> = Vec::new();
    let mut i: usize = 0;
    while i < flat.len()
        invariant
            i <= flat@.len(),
            out@ == allowed_targets(flat@, forbidden@, i as int),
        decreases flat@.len() - i,
    {
        if !crate::feed::is_listed(forbidden, flat[i].as_str()) {
            out.push(i);
        }
        i += 1;
    }
    out
}

/// Which themes a theme may move under: exactly the positions of the
/// flattened tree whose theme is not forbidden (the theme itself and its
/// descendants), in their order in the tree, so a move never puts a theme
/// under itself or under one of its own descendants.
pub proof fn lemma_move_target_members(flat: Seq<String>, forbidden: Seq<String>, n: int)
    requires
        0 <= n <= flat.len(),
        flat.len() <= usize::MAX,
    ensures
        forall|i: int| 0 <= i < n ==> (allowed_targets(flat, forbidden, n).contains(i as usize)
            <==> !crate::feed::listed(forbidden, #[trigger] flat[i]@)),
        forall|k: int| 0 <= k < allowed_targets(flat, forbidden, n).len() ==>
            (#[trigger] allowed_targets(flat, forbidden, n)[k]) < n
                && !crate::feed::listed(forbidden, flat[allowed_targets(flat, forbidden, n)[k] as int]@),
        forall|a: int, b: int| 0 <= a < b < allowed_targets(flat, forbidden, n).len() ==>
            #[trigger] allowed_targets(flat, forbidden, n)[a] < #[trigger] allowed_targets(flat, forbidden, n)[b],
    decreases n,
{
    if n > 0 {
        lemma_move_target_members(flat, forbidden, n - 1);
        let before = allowed_targets(flat, forbidden, n - 1);
        let after = allowed_targets(flat, forbidden, n);
        if !crate::feed::listed(forbidden, flat[n - 1]@) {
            assert(after == before.push((n - 1) as usize));
            assert forall|i: int| 0 <= i < n implies (after.contains(i as usize)
                <==> !crate::feed::listed(forbidden, #[trigger] flat[i]@)) by {
                if i < n - 1 {
                    if before.contains(i as usize) {
                        let k = choose|k: int| 0 <= k < before.len() && before[k] == i as usize;
                        assert(after[k] == i as usize);
                    }
                    if after.contains(i as usize) {
                        let k = choose|k: int| 0 <= k < after.len() && after[k] == i as usize;
                        if k < before.len() {
                            assert(before[k] == i as usize);
                        } else {
                            assert(after[k] == (n - 1) as usize);
                        }
                    }
                } else {
                    assert(after[before.len() as int] == i as usize);
                }
            }
        } else {
            assert(after == before);
            assert forall|i: int| 0 <= i < n implies (after.contains(i as usize)
                <==> !crate::feed::listed(forbidden, #[trigger] flat[i]@)) by {
                if i == n - 1 && before.contains(i as usize) {
                    let k = choose|k: int| 0 <= k < before.len() && before[k] == i as usize;
                    assert(before[k] < n - 1);
                }
            }
        }
    }
}

/// "Move to the top level" is offered only for a theme that has a parent.
pub fn offers_move_to_root(parent_id: &Option<String>) -> (r: bool)
    ensures
        r == parent_id.is_some(),
{
    parent_id.is_some()
}

/// One change to the themes a note is filed in.
#[derive(Debug)]
pub enum FolderOp {
    /// Take the note out of this theme.
    Remove(String),
    /// File the note in this theme.
    Add(String),
}

/// A change as (adds, theme id).
pub open spec fn folder_op_view(op: FolderOp) -> (bool, Seq<char>) {
    match op {
        FolderOp::Remove(id) => (false, id@),
        FolderOp::Add(id) => (true, id@),
    }
}

/// Moving a note: out of every theme it is in, in that order, then into
/// the chosen theme, if one was chosen.
pub open spec fn move_plan(current: Seq<Seq<char>>, target: Option<Seq<char>>) -> Seq<(bool, Seq<char>)> {
    let removes = current.map_values(|c: Seq<char>| (false, c));
    match target {
        Some(t) => removes.push((true, t)),
        None => removes,
    }
}

/// The themes a note is in after a run of changes.
pub open spec fn folders_after(start: Set<Seq<char>>, plan: Seq<(bool, Seq<char>)>) -> Set<Seq<char>>
    decreases plan.len(),
{
    if plan.len() == 0 {
        start
    } else {
        let before = folders_after(start, plan.drop_last());
        if plan.last().0 {
            before.insert(plan.last().1)
        } else {
            before.remove(plan.last().1)
        }
    }
}

/// The changes that move a note from the themes it is in to `target`
/// (`None`: to no theme).
pub fn move_ops(current: &Vec<String>, target: &Option<String>) -> (r: Vec<FolderOp>)
    ensures
        r@.map_values(|op: FolderOp| folder_op_view(op)) == move_plan(texts(current@), opt_text(*target)),
{
    let mut out: Vec<FolderOp> = Vec::new();
    let mut i: usize = 0;
    while i < current.len()
        invariant
            i <= current@.len(),
            out@.len() == i,
            forall|k: int| 0 <= k < i ==> folder_op_view(#[trigger] out@[k]) == (false, current@[k]@),
        decreases current@.len() - i,
    {
        out.push(FolderOp::Remove(String::from_str(current[i].as_str())));
        i += 1;
    }
    let ghost removes = out@;
    match target {
        Some(t) => out.push(FolderOp::Add(String::from_str(t.as_str()))),
        None => {},
    }
    proof {
        let plan = move_plan(texts(current@), opt_text(*target));
        assert(removes.map_values(|op: FolderOp| folder_op_view(op)) =~= texts(current@).map_values(
            |c: Seq<char>| (false, c),
        ));
        assert(out@.map_values(|op: FolderOp| folder_op_view(op)) =~= plan);
    }
    out
}

proof fn lemma_removes_leave(start: Set<Seq<char>>, current: Seq<Seq<char>>)
    ensures
        forall|x: Seq<char>| folders_after(start, current.map_values(|c: Seq<char>| (false, c))).contains(x)
            <==> (start.contains(x) && !current.contains(x)),
    decreases current.len(),
{
    if current.len() > 0 {
        let before = current.drop_last();
        lemma_removes_leave(start, before);
        let plan = current.map_values(|c: Seq<char>| (false, c));
        assert(plan.drop_last() == before.map_values(|c: Seq<char>| (false, c)));
        assert forall|x: Seq<char>| folders_after(start, plan).contains(x)
            <==> (start.contains(x) && !current.contains(x)) by {
            if before.contains(x) {
                let k = choose|k: int| 0 <= k < before.len() && before[k] == x;
                assert(current[k] == x);
            }
            if current.contains(x) && x != current.last() {
                let k = choose|k: int| 0 <= k < current.len() && current[k] == x;
                assert(before[k] == x);
            }
            assert(current[current.len() - 1] == current.last());
        }
    }
}

/// Moving a note leaves it in exactly the chosen theme, or in none when
/// none was chosen, whatever themes it was in before.
pub proof fn lemma_move_lands_in_target(current: Seq<Seq<char>>, target: Option<Seq<char>>)
    ensures
        folders_after(current.to_set(), move_plan(current, target)) == match target {
            Some(t) => set![t],
            None => Set::<Seq<char>>::empty(),
        },
{
    lemma_removes_leave(current.to_set(), current);
    let removes = current.map_values(|c: Seq<char>| (false, c));
    let left = folders_after(current.to_set(), removes);
    assert forall|x: Seq<char>| !left.contains(x) by {
        if current.to_set().contains(x) {
            assert(current.contains(x));
        }
    }
    assert(left =~= Set::<Seq<char>>::empty());
    match target {
        Some(t) => {
            assert(move_plan(current, target).drop_last() == removes);
            assert(folders_after(current.to_set(), move_plan(current, target)) =~= set![t]);
        },
        None => {},
    }
}

/// The left margin of a theme row, twelve pixels per level.
pub fn row_margin_style(depth: u32) -> (r: String)
    requires
        depth * 12 <= u32::MAX,
    ensures
        r@ == "margin-left: "@ + decimal((depth * 12) as nat) + "px"@,
{
    let mut out = String::from_str("margin-left: ");
    let d = decimal_string((depth * 12) as u64);
    push_str(&mut out, d.as_str());
    push_str(&mut out, "px");
    out
}

/// The indent of a move target, twelve pixels and fourteen per level.
pub fn target_indent_style(depth: u32) -> (r: String)
    requires
        12 + depth * 14 <= u32::MAX,
    ensures
        r@ == "padding-left: "@ + decimal((12 + depth * 14) as nat) + "px"@,
{
    let mut out = String::from_str("padding-left: ");
    let d = decimal_string((12 + depth * 14) as u64);
    push_str(&mut out, d.as_str());
    push_str(&mut out, "px");
    out
}

/// Whether a theme's row is the selected one.
pub fn is_selected(selected: &Option<String>, id: &str) -> (r: bool)
    ensures
        r == (opt_text(*selected) == Some(id@)),
{
    match selected {
        Some(s) => same_text(s.as_str(), id),
        None => false,
    }
}

} // verus!
