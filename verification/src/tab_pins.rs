//! The per-tab pins of an armed spreadsheet: which tabs the agent reads.
//! The checked tabs form an ordered set, kept as a list in ascending text
//! order without repeats.

use crate::text_set::toggled;
use crate::text::{copy_texts, push_str, same_text, text_less, text_lt, texts};
use vstd::prelude::*;

verus! {

/// The texts are in strictly ascending order (so none repeats).
pub open spec fn ascending(t: Seq<Seq<char>>) -> bool {
    forall|i: int, j: int| 0 <= i < j < t.len() ==> text_lt(t[i], t[j])
}

/// The set a list of texts holds.
pub open spec fn members(v: Seq<String>) -> Set<Seq<char>> {
    texts(v).to_set()
}

proof fn lemma_insert_members(t: Seq<Seq<char>>, p: int, x: Seq<char>)
    requires
        0 <= p <= t.len(),
    ensures
        t.insert(p, x).to_set() == t.to_set().insert(x),
{
    let u = t.insert(p, x);
    t.insert_ensures(p, x);
    assert forall|y: Seq<char>| u.to_set().contains(y) <==> t.to_set().insert(x).contains(y) by {
        if u.contains(y) {
            let i = choose|i: int| 0 <= i < u.len() && u[i] == y;
            if i < p {
                assert(t[i] == y);
            } else if i > p {
                assert(t[i - 1] == y);
            }
        }
        if t.contains(y) {
            let i = choose|i: int| 0 <= i < t.len() && t[i] == y;
            if i < p {
                assert(u[i] == y);
            } else {
                assert(u[i + 1] == y);
            }
        }
        if y == x {
            assert(u[p] == y);
        }
    }
    assert(u.to_set() =~= t.to_set().insert(x));
}

proof fn lemma_remove_members(t: Seq<Seq<char>>, p: int)
    requires
        0 <= p < t.len(),
        ascending(t),
    ensures
        t.remove(p).to_set() == t.to_set().remove(t[p]),
{
    let u = t.remove(p);
    t.remove_ensures(p);
    assert forall|y: Seq<char>| u.to_set().contains(y) <==> t.to_set().remove(t[p]).contains(y) by {
        if u.contains(y) {
            let i = choose|i: int| 0 <= i < u.len() && u[i] == y;
            if i < p {
                assert(t[i] == y);
                crate::text::lemma_text_lt_irreflexive(y);
            } else {
                assert(t[i + 1] == y);
                crate::text::lemma_text_lt_irreflexive(y);
            }
        }
        if t.contains(y) && y != t[p] {
            let i = choose|i: int| 0 <= i < t.len() && t[i] == y;
            if i < p {
                assert(u[i] == y);
            } else {
                assert(i != p);
                assert(u[i - 1] == y);
            }
        }
    }
    assert(u.to_set() =~= t.to_set().remove(t[p]));
}

/// Where `x` sits in the ordered set, or where it would go: the first
/// position whose text is not below `x`.
fn seek(set: &Vec<String>, x: &str) -> (p: usize)
    requires
        ascending(texts(set@)),
    ensures
        p <= set@.len(),
        forall|i: int| 0 <= i < p ==> text_lt(#[trigger] set@[i]@, x@),
        p < set@.len() ==> !text_lt(set@[p as int]@, x@),
{
    let mut p: usize = 0;
    while p < set.len()
        invariant
            p <= set@.len(),
            forall|i: int| 0 <= i < p ==> text_lt(#[trigger] set@[i]@, x@),
        decreases set@.len() - p,
    {
        if !text_less(set[p].as_str(), x) {
            return p;
        }
        p += 1;
    }
    p
}

/// Puts `x` in the ordered set.
pub fn set_insert(set: &mut Vec<String>, x: &str)
    requires
        ascending(texts(old(set)@)),
    ensures
        ascending(texts(final(set)@)),
        members(final(set)@) == members(old(set)@).insert(x@),
{
    let p = seek(set, x);
    if p < set.len() && same_text(set[p].as_str(), x) {
        proof {
            assert(texts(set@)[p as int] == x@);
            assert(members(set@).insert(x@) =~= members(set@));
        }
        return;
    }
    let ghost t = texts(set@);
    proof {
        if p < set@.len() {
            crate::text::lemma_text_lt_total(x@, t[p as int]);
        }
    }
    set.insert(p, String::from_str(x));
    proof {
        let u = texts(set@);
        assert(u =~= t.insert(p as int, x@));
        t.insert_ensures(p as int, x@);
        lemma_insert_members(t, p as int, x@);
        assert forall|i: int, j: int| 0 <= i < j < u.len() implies text_lt(u[i], u[j]) by {
            if j < p {
            } else if i < p && j == p {
                assert(text_lt(old(set)@[i]@, x@));
            } else if i < p && j > p {
                assert(u[j] == t[j - 1]);
                if j - 1 > p {
                    crate::text::lemma_text_lt_transitive(x@, t[p as int], t[j - 1]);
                }
                assert(u[i] == t[i]);
                assert(text_lt(old(set)@[i]@, x@));
                crate::text::lemma_text_lt_transitive(u[i], x@, u[j]);
            } else if i == p {
                assert(u[j] == t[j - 1]);
                if j - 1 > p {
                    crate::text::lemma_text_lt_transitive(x@, t[p as int], t[j - 1]);
                }
            } else {
                assert(u[i] == t[i - 1] && u[j] == t[j - 1]);
            }
        }
    }
}

/// Takes `x` out of the ordered set; tells whether it was there.
pub fn set_remove(set: &mut Vec<String>, x: &str) -> (was: bool)
    requires
        ascending(texts(old(set)@)),
    ensures
        ascending(texts(final(set)@)),
        was == members(old(set)@).contains(x@),
        members(final(set)@) == members(old(set)@).remove(x@),
{
    let p = seek(set, x);
    let ghost t = texts(set@);
    if p < set.len() && same_text(set[p].as_str(), x) {
        set.remove(p);
        proof {
            assert(texts(set@) =~= t.remove(p as int));
            t.remove_ensures(p as int);
            lemma_remove_members(t, p as int);
            assert(t[p as int] == x@);
            assert(t.contains(x@));
            let u = texts(set@);
            assert forall|i: int, j: int| 0 <= i < j < u.len() implies text_lt(u[i], u[j]) by {
                if j < p {
                } else if i < p {
                    assert(u[j] == t[j + 1]);
                } else {
                    assert(u[i] == t[i + 1] && u[j] == t[j + 1]);
                }
            }
        }
        return true;
    }
    proof {
        if t.contains(x@) {
            let i = choose|i: int| 0 <= i < t.len() && t[i] == x@;
            crate::text::lemma_text_lt_irreflexive(x@);
            if i < p {
                assert(text_lt(set@[i]@, x@));
            } else if i > p {
                assert(text_lt(t[p as int], t[i]));
                crate::text::lemma_text_lt_total(t[p as int], x@);
            }
        }
        assert(members(set@).remove(x@) =~= members(set@));
    }
    false
}

/// The ordered set of the given texts (what collecting them into a
/// `BTreeSet` gives).
pub fn set_of(items: &Vec<String>) -> (r: Vec<String>)
    ensures
        ascending(texts(r@)),
        members(r@) == members(items@),
{
    let mut out: Vec<String> = Vec::new();
    let mut i: usize = 0;
    while i < items.len()
        invariant
            i <= items@.len(),
            ascending(texts(out@)),
            members(out@) == members(items@.take(i as int)),
        decreases items@.len() - i,
    {
        set_insert(&mut out, items[i].as_str());
        proof {
            assert(texts(items@.take(i + 1)) =~= texts(items@.take(i as int)).push(items@[i as int]@));
            texts(items@.take(i as int)).lemma_push_to_set_commute(items@[i as int]@);
        }
        i += 1;
    }
    assert(items@.take(items@.len() as int) =~= items@);
    out
}

/// A binding of the agent to one spreadsheet, pinned to one tab when
/// `sheet` is set.
#[derive(Debug)]
pub struct BindingEntry {
    pub spreadsheet_id: String,
    pub sheet: Option<String>,
}

/// The tabs pinned for one spreadsheet, in the order the bindings list
/// them.
pub open spec fn pins_of(entries: Seq<BindingEntry>, id: Seq<char>) -> Seq<Seq<char>>
    decreases entries.len(),
{
    if entries.len() == 0 {
        Seq::empty()
    } else {
        let before = pins_of(entries.drop_last(), id);
        let e = entries.last();
        if e.spreadsheet_id@ == id && e.sheet is Some {
            before.push(e.sheet->0@)
        } else {
            before
        }
    }
}

/// The tabs currently pinned for one armed spreadsheet (empty: the whole
/// workbook).
pub fn pinned_tabs(entries: &Vec<BindingEntry>, spreadsheet_id: &str) -> (r: Vec<String>)
    ensures
        texts(r@) == pins_of(entries@, spreadsheet_id@),
{
    let mut out: Vec<String> = Vec::new();
    let mut i: usize = 0;
    while i < entries.len()
        invariant
            i <= entries@.len(),
            texts(out@) == pins_of(entries@.take(i as int), spreadsheet_id@),
        decreases entries@.len() - i,
    {
        assert(entries@.take(i + 1).drop_last() =~= entries@.take(i as int));
        let e = &entries[i];
        if same_text(e.spreadsheet_id.as_str(), spreadsheet_id) {
            if let Some(s) = &e.sheet {
                out.push(String::from_str(s.as_str()));
                assert(texts(out@) =~= pins_of(entries@.take(i + 1), spreadsheet_id@));
            }
        }
        i += 1;
    }
    assert(entries@.take(entries@.len() as int) =~= entries@);
    out
}

/// The pin editor of one spreadsheet: every tab, and the checked ones.
#[derive(Debug)]
pub struct TabPicker {
    pub spreadsheet_id: String,
    pub tabs: Vec<String>,
    pub checked: Vec<String>,
}

impl TabPicker {
    /// The checked tabs form an ordered set.
    pub open spec fn wf(&self) -> bool {
        ascending(texts(self.checked@))
    }
}

/// The pin editor for one spreadsheet, from its tabs and the bindings: the
/// pinned tabs checked, or every tab when none is pinned (the whole
/// workbook is armed).
pub fn load_tab_picker(spreadsheet_id: &str, tabs: Vec<String>, entries: &Vec<BindingEntry>) -> (r: TabPicker)
    ensures
        r.wf(),
        r.spreadsheet_id@ == spreadsheet_id@,
        r.tabs@ == tabs@,
        members(r.checked@) == (if pins_of(entries@, spreadsheet_id@).len() == 0 {
            members(tabs@)
        } else {
            pins_of(entries@, spreadsheet_id@).to_set()
        }),
{
    let pins = pinned_tabs(entries, spreadsheet_id);
    let checked = if pins.len() == 0 {
        set_of(&tabs)
    } else {
        set_of(&pins)
    };
    TabPicker { spreadsheet_id: String::from_str(spreadsheet_id), tabs, checked }
}

/// Checks a tab that was not checked, unchecks one that was.
pub fn toggle_tab(picker: &mut TabPicker, tab: &str)
    requires
        old(picker).wf(),
    ensures
        final(picker).wf(),
        final(picker).spreadsheet_id == old(picker).spreadsheet_id,
        final(picker).tabs == old(picker).tabs,
        members(final(picker).checked@) == toggled(members(old(picker).checked@), tab@),
{
    let was = set_remove(&mut picker.checked, tab);
    if !was {
        set_insert(&mut picker.checked, tab);
    }
}

/// Every tab of the spreadsheet is checked.
pub open spec fn every_tab_checked(picker: TabPicker) -> bool {
    forall|i: int| 0 <= i < picker.tabs@.len() ==> crate::feed::listed(picker.checked@, #[trigger] picker.tabs@[i]@)
}

/// What applying the editor stores: no pin when every tab is checked (the
/// whole workbook is armed), otherwise the checked tabs in order.
pub fn pins_to_store(picker: &TabPicker) -> (r: Vec<String>)
    ensures
        every_tab_checked(*picker) ==> r@.len() == 0,
        !every_tab_checked(*picker) ==> texts(r@) == texts(picker.checked@),
{
    let mut i: usize = 0;
    while i < picker.tabs.len()
        invariant
            i <= picker.tabs@.len(),
            forall|j: int| 0 <= j < i ==> crate::feed::listed(picker.checked@, #[trigger] picker.tabs@[j]@),
        decreases picker.tabs@.len() - i,
    {
        if !crate::feed::is_listed(&picker.checked, picker.tabs[i].as_str()) {
            return copy_texts(&picker.checked);
        }
        i += 1;
    }
    Vec::new()
}

/// The pins of a spreadsheet joined with " · " for its row.
pub open spec fn joined(pins: Seq<Seq<char>>) -> Seq<char>
    decreases pins.len(),
{
    if pins.len() == 0 {
        Seq::empty()
    } else if pins.len() == 1 {
        pins[0]
    } else {
        joined(pins.drop_last()) + " · "@ + pins.last()
    }
}

/// The row's summary of the pins; `None` when there are none (the whole
/// workbook, which the row names in the user's language).
pub fn pins_summary(pins: &Vec<String>) -> (r: Option<String>)
    ensures
        r is None <==> pins@.len() == 0,
        r matches Some(s) ==> s@ == joined(texts(pins@)),
{
    if pins.len() == 0 {
        return None;
    }
    let mut out = String::from_str(pins[0].as_str());
    let mut i: usize = 1;
    assert(texts(pins@)[0] == pins@[0]@);
    assert(texts(pins@).take(1) =~= seq![pins@[0]@]);
    assert(texts(pins@).take(1).len() == 1);
    assert(joined(texts(pins@).take(1)) == texts(pins@).take(1)[0]);
    while i < pins.len()
        invariant
            1 <= i <= pins@.len(),
            out@ == joined(texts(pins@).take(i as int)),
        decreases pins@.len() - i,
    {
        push_str(&mut out, " · ");
        push_str(&mut out, pins[i].as_str());
        assert(texts(pins@).take(i + 1).drop_last() =~= texts(pins@).take(i as int));
        i += 1;
    }
    assert(texts(pins@).take(pins@.len() as int) =~= texts(pins@));
    Some(out)
}

/// After a spreadsheet is unbound, the pin editor closes only when it was
/// open for that spreadsheet; an editor open for another one stays.
pub fn picker_after_unbind(picker: Option<TabPicker>, unbound: &str) -> (r: Option<TabPicker>)
    ensures
        (picker matches Some(p) && p.spreadsheet_id@ == unbound@) ==> r is None,
        !(picker matches Some(p) && p.spreadsheet_id@ == unbound@) ==> r == picker,
{
    match picker {
        Some(p) => if same_text(p.spreadsheet_id.as_str(), unbound) {
            None
        } else {
            Some(p)
        },
        None => None,
    }
}

/// The apply button works once at least one tab is checked.
pub fn apply_enabled(picker: &TabPicker) -> (r: bool)
    ensures
        r == (picker.checked@.len() > 0),
{
    picker.checked.len() > 0
}

/// The editor and the status line once the pins were stored or refused:
/// stored, the editor closes and the status clears; refused, the editor
/// stays open and the status shows the reason.
pub fn after_apply(picker: Option<TabPicker>, outcome: Result<(), String>) -> (r: (Option<TabPicker>, Option<String>))
    ensures
        match outcome {
            Ok(_) => r.0 is None && r.1 is None,
            Err(e) => r.0 == picker && r.1 == Some(e),
        },
{
    match outcome {
        Ok(()) => (None, None),
        Err(e) => (picker, Some(e)),
    }
}

/// A sheet's tabs can be read only while no other read runs.
pub fn tabs_read_allowed(loading: &Option<String>) -> (r: bool)
    ensures
        r == (loading is None),
{
    loading.is_none()
}

} // verus!
