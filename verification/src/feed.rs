//! The notes feed: which notes and threads a search and the filter toggles
//! keep, and in which order the feed lists them.

use crate::text::{contains_text, has_substring, lowercase, same_text, text_less, text_lt, to_lower};
use vstd::prelude::*;

verus! {

/// How many feed rows are shown at first, and added each time the list is
/// scrolled near its end.
pub const NOTES_PAGE: usize = 30;

/// The four icon toggles of the search bar.
#[derive(Clone, Copy, Debug, PartialEq, Eq, Structural, Default)]
pub struct NoteFilters {
    pub voice: bool,
    pub reminder: bool,
    pub document: bool,
    pub thread: bool,
}

impl NoteFilters {
    /// No toggle is on.
    pub open spec fn none_on(self) -> bool {
        !self.voice && !self.reminder && !self.document && !self.thread
    }

    /// How many toggles are on.
    pub open spec fn on_count(self) -> nat {
        (if self.voice { 1nat } else { 0nat }) + (if self.reminder { 1nat } else { 0nat }) + (
        if self.document { 1nat } else { 0nat }) + (if self.thread { 1nat } else { 0nat })
    }

    /// Whether no toggle is on.
    pub fn is_empty(&self) -> (r: bool)
        ensures
            r == self.none_on(),
    {
        !self.voice && !self.reminder && !self.document && !self.thread
    }

    /// How many toggles are on.
    pub fn count(&self) -> (r: usize)
        ensures
            r == self.on_count(),
    {
        let mut n: usize = 0;
        if self.voice {
            n += 1;
        }
        if self.reminder {
            n += 1;
        }
        if self.document {
            n += 1;
        }
        if self.thread {
            n += 1;
        }
        n
    }
}

/// The search placeholder's text key when exactly one toggle is on, so an
/// icon-only toggle never has to be guessed; empty otherwise.
pub open spec fn placeholder_key(f: NoteFilters) -> Seq<char> {
    if f.voice && !f.reminder && !f.document && !f.thread {
        "note-filter-voice"@
    } else if !f.voice && f.reminder && !f.document && !f.thread {
        "note-filter-reminder"@
    } else if !f.voice && !f.reminder && f.document && !f.thread {
        "note-filter-document"@
    } else if !f.voice && !f.reminder && !f.document && f.thread {
        "note-filter-thread"@
    } else {
        ""@
    }
}

/// The text key naming the one active toggle, or `""`.
pub fn filter_placeholder_key(f: NoteFilters) -> (r: &'static str)
    ensures
        r@ == placeholder_key(f),
{
    match (f.voice, f.reminder, f.document, f.thread) {
        (true, false, false, false) => "note-filter-voice",
        (false, true, false, false) => "note-filter-reminder",
        (false, false, true, false) => "note-filter-document",
        (false, false, false, true) => "note-filter-thread",
        _ => "",
    }
}

/// What the feed needs of a note.
#[derive(Debug)]
pub struct NoteRow {
    pub id: String,
    pub title: Option<String>,
    pub content: String,
    pub tags: Vec<String>,
    /// Recorded by voice rather than typed.
    pub is_voice: bool,
    pub created_at: String,
}

/// What the feed needs of a thread.
#[derive(Debug)]
pub struct ThreadRow {
    pub title: String,
    pub modified_at: String,
}

/// One row of the feed: the note or thread at that index of the lists the
/// feed was built from.
#[derive(Clone, Copy, Debug, PartialEq, Eq, Structural)]
pub enum FeedItem {
    Note(usize),
    Thread(usize),
}

/// `id` is one of `ids`.
pub open spec fn listed(ids: Seq<String>, id: Seq<char>) -> bool {
    exists|k: int| 0 <= k < ids.len() && ids[k]@ == id
}

/// Whether `id` is one of `ids`.
pub fn is_listed(ids: &Vec<String>, id: &str) -> (r: bool)
    ensures
        r == listed(ids@, id@),
{
    let mut k: usize = 0;
    while k < ids.len()
        invariant
            k <= ids@.len(),
            forall|j: int| 0 <= j < k ==> ids@[j]@ != id@,
        decreases ids@.len() - k,
    {
        if same_text(ids[k].as_str(), id) {
            return true;
        }
        k += 1;
    }
    false
}

/// The toggles keep this note: a thread-only filter keeps no note, and each
/// other toggle that is on asks for its own marker.
pub open spec fn passes_spec(
    n: NoteRow,
    f: NoteFilters,
    with_reminder: Seq<String>,
    with_document: Seq<String>,
) -> bool {
    &&& !f.thread
    &&& (!f.voice || n.is_voice)
    &&& (!f.reminder || listed(with_reminder, n.id@))
    &&& (!f.document || listed(with_document, n.id@))
}

/// Whether the toggles keep note `n`. `with_reminder` and `with_document`
/// list the notes that carry an active reminder or an attachment.
pub fn note_passes(
    n: &NoteRow,
    f: NoteFilters,
    with_reminder: &Vec<String>,
    with_document: &Vec<String>,
) -> (r: bool)
    ensures
        r == passes_spec(*n, f, with_reminder@, with_document@),
{
    !f.thread && (!f.voice || n.is_voice) && (!f.reminder || is_listed(
        with_reminder,
        n.id.as_str(),
    )) && (!f.document || is_listed(with_document, n.id.as_str()))
}

/// The note's title, or nothing.
pub open spec fn title_text(n: NoteRow) -> Seq<char> {
    match n.title {
        Some(t) => t@,
        None => Seq::empty(),
    }
}

/// The search `q` (already lowercased) finds the note: empty, or inside the
/// lowercased title, content or one of the tags.
pub open spec fn matches_spec(n: NoteRow, q: Seq<char>) -> bool {
    ||| q.len() == 0
    ||| has_substring(lowercase(title_text(n)), q)
    ||| has_substring(lowercase(n.content@), q)
    ||| exists|j: int| 0 <= j < n.tags@.len() && has_substring(lowercase(n.tags@[j]@), q)
}

/// Whether the lowercased search `q` finds note `n`.
pub fn note_matches(n: &NoteRow, q: &str) -> (r: bool)
    ensures
        r == matches_spec(*n, q@),
{
    if q.is_empty() {
        return true;
    }
    let title_low = match &n.title {
        Some(t) => to_lower(t.as_str()),
        None => to_lower(""),
    };
    proof {
        reveal_strlit("");
        assert(""@ =~= Seq::<char>::empty());
    }
    if contains_text(title_low.as_str(), q) {
        return true;
    }
    let content_low = to_lower(n.content.as_str());
    if contains_text(content_low.as_str(), q) {
        return true;
    }
    let mut j: usize = 0;
    while j < n.tags.len()
        invariant
            j <= n.tags@.len(),
            forall|k: int| 0 <= k < j ==> !has_substring(lowercase(n.tags@[k]@), q@),
        decreases n.tags@.len() - j,
    {
        let low = to_lower(n.tags[j].as_str());
        if contains_text(low.as_str(), q) {
            return true;
        }
        j += 1;
    }
    false
}

/// Threads only answer their own toggle: they stay when no toggle is on or
/// when the thread toggle is.
pub fn keep_threads(f: NoteFilters) -> (r: bool)
    ensures
        r == (f.none_on() || f.thread),
{
    f.is_empty() || f.thread
}

/// The search `q` (already lowercased) finds the thread.
pub open spec fn thread_matches_spec(t: ThreadRow, q: Seq<char>) -> bool {
    q.len() == 0 || has_substring(lowercase(t.title@), q)
}

/// Whether the lowercased search `q` finds thread `t`.
pub fn thread_matches(t: &ThreadRow, q: &str) -> (r: bool)
    ensures
        r == thread_matches_spec(*t, q@),
{
    if q.is_empty() {
        return true;
    }
    let low = to_lower(t.title.as_str());
    contains_text(low.as_str(), q)
}

} // verus!

verus! {

/// The timestamp a feed row is ordered by: a note's creation, a thread's
/// last change.
pub open spec fn recency(item: FeedItem, notes: Seq<NoteRow>, threads: Seq<ThreadRow>) -> Seq<
    char,
> {
    match item {
        FeedItem::Note(i) => notes[i as int].created_at@,
        FeedItem::Thread(i) => threads[i as int].modified_at@,
    }
}

/// The row points into the lists.
pub open spec fn item_valid(item: FeedItem, notes: Seq<NoteRow>, threads: Seq<ThreadRow>) -> bool {
    match item {
        FeedItem::Note(i) => i < notes.len(),
        FeedItem::Thread(i) => i < threads.len(),
    }
}

/// Each timestamp is no earlier (in text order) than the ones after it.
pub open spec fn sorted_desc(keys: Seq<Seq<char>>) -> bool {
    forall|i: int, j: int| 0 <= i < j < keys.len() ==> !text_lt(#[trigger] keys[i], #[trigger] keys[j])
}

/// The rows' timestamps, in order.
pub open spec fn keys_of(items: Seq<FeedItem>, notes: Seq<NoteRow>, threads: Seq<ThreadRow>) -> Seq<
    Seq<char>,
> {
    items.map_values(|it: FeedItem| recency(it, notes, threads))
}

/// Newest first.
pub open spec fn newest_first(items: Seq<FeedItem>, notes: Seq<NoteRow>, threads: Seq<ThreadRow>) -> bool {
    sorted_desc(keys_of(items, notes, threads))
}

/// No row appears twice.
pub open spec fn distinct(items: Seq<FeedItem>) -> bool {
    forall|i: int, j: int| 0 <= i < items.len() && 0 <= j < items.len() && i != j ==> items[i] != items[j]
}

/// Inserting `k` after every key that is not older than it, and before the
/// first older one, keeps the keys newest first.
pub proof fn lemma_insert_keeps_sorted(keys: Seq<Seq<char>>, p: int, k: Seq<char>)
    requires
        sorted_desc(keys),
        0 <= p <= keys.len(),
        forall|q: int| 0 <= q < p ==> !text_lt(#[trigger] keys[q], k),
        p < keys.len() ==> text_lt(keys[p], k),
    ensures
        sorted_desc(keys.insert(p, k)),
{
    let n = keys.insert(p, k);
    assert forall|i: int, j: int| 0 <= i < j < n.len() implies !text_lt(#[trigger] n[i], #[trigger] n[j]) by {
        if i < p && j < p {
            assert(n[i] == keys[i] && n[j] == keys[j]);
        } else if i < p && j == p {
            assert(n[i] == keys[i]);
        } else if i < p && j > p {
            assert(n[i] == keys[i] && n[j] == keys[j - 1]);
        } else if i == p {
            let o = keys[j - 1];
            assert(n[j] == o);
            if text_lt(k, o) {
                crate::text::lemma_text_lt_total(keys[p], o);
                if j - 1 > p {
                    assert(!text_lt(keys[p], keys[j - 1]));
                }
                if keys[p] == o {
                    crate::text::lemma_text_lt_transitive(k, o, k);
                    crate::text::lemma_text_lt_irreflexive(k);
                } else {
                    crate::text::lemma_text_lt_transitive(k, o, keys[p]);
                    crate::text::lemma_text_lt_transitive(k, keys[p], k);
                    crate::text::lemma_text_lt_irreflexive(k);
                }
            }
        } else {
            assert(n[i] == keys[i - 1] && n[j] == keys[j - 1]);
        }
    }
}

/// Where a row with timestamp `k` goes among `out`: before the first row
/// that is older, after every row that is not.
pub open spec fn first_older(out: Seq<FeedItem>, k: Seq<char>, notes: Seq<NoteRow>, threads: Seq<ThreadRow>) -> nat
    decreases out.len(),
{
    if out.len() == 0 {
        0
    } else if text_lt(recency(out[0], notes, threads), k) {
        0
    } else {
        1 + first_older(out.drop_first(), k, notes, threads)
    }
}

/// The rows newest first, each row inserted after the rows before it that
/// are not older: rows with the same timestamp keep the order they came in
/// (what a stable sort on the timestamps, newest first, gives).
pub open spec fn newest_first_order(items: Seq<FeedItem>, notes: Seq<NoteRow>, threads: Seq<ThreadRow>) -> Seq<FeedItem>
    decreases items.len(),
{
    if items.len() == 0 {
        Seq::empty()
    } else {
        let before = newest_first_order(items.drop_last(), notes, threads);
        let x = items.last();
        before.insert(first_older(before, recency(x, notes, threads), notes, threads) as int, x)
    }
}

proof fn lemma_first_older_is(out: Seq<FeedItem>, k: Seq<char>, notes: Seq<NoteRow>, threads: Seq<ThreadRow>, p: int)
    requires
        0 <= p <= out.len(),
        forall|q: int| 0 <= q < p ==> !text_lt(#[trigger] recency(out[q], notes, threads), k),
        p < out.len() ==> text_lt(recency(out[p], notes, threads), k),
    ensures
        first_older(out, k, notes, threads) == p,
    decreases p,
{
    if p > 0 {
        assert(!text_lt(recency(out[0], notes, threads), k));
        let rest = out.drop_first();
        assert forall|q: int| 0 <= q < p - 1 implies !text_lt(#[trigger] recency(rest[q], notes, threads), k) by {
            assert(rest[q] == out[q + 1]);
        }
        if p < out.len() {
            assert(rest[p - 1] == out[p]);
        }
        lemma_first_older_is(rest, k, notes, threads, p - 1);
    }
}

fn recency_str<'a>(item: FeedItem, notes: &'a Vec<NoteRow>, threads: &'a Vec<ThreadRow>) -> (r: &'a str)
    requires
        item_valid(item, notes@, threads@),
    ensures
        r@ == recency(item, notes@, threads@),
{
    match item {
        FeedItem::Note(i) => notes[i].created_at.as_str(),
        FeedItem::Thread(i) => threads[i].modified_at.as_str(),
    }
}

/// Orders feed rows newest first. Rows with the same timestamp keep the
/// order they came in.
pub fn sort_newest_first(items: &Vec<FeedItem>, notes: &Vec<NoteRow>, threads: &Vec<ThreadRow>) -> (r: Vec<FeedItem>)
    requires
        distinct(items@),
        forall|i: int| 0 <= i < items@.len() ==> item_valid(#[trigger] items@[i], notes@, threads@),
    ensures
        r@.len() == items@.len(),
        distinct(r@),
        forall|x: FeedItem| r@.contains(x) <==> items@.contains(x),
        newest_first(r@, notes@, threads@),
        r@ == newest_first_order(items@, notes@, threads@),
{
    let mut out: Vec<FeedItem> = Vec::new();
    let mut k: usize = 0;
    while k < items.len()
        invariant
            k <= items@.len(),
            distinct(items@),
            forall|i: int| 0 <= i < items@.len() ==> item_valid(#[trigger] items@[i], notes@, threads@),
            out@.len() == k,
            distinct(out@),
            forall|x: FeedItem| out@.contains(x) <==> items@.take(k as int).contains(x),
            newest_first(out@, notes@, threads@),
            out@ == newest_first_order(items@.take(k as int), notes@, threads@),
        decreases items@.len() - k,
    {
        let x = items[k];
        let kx = recency_str(x, notes, threads);
        let ghost keys = keys_of(out@, notes@, threads@);
        let mut p: usize = 0;
        while p < out.len()
            invariant
                p <= out@.len(),
                keys == keys_of(out@, notes@, threads@),
                kx@ == recency(x, notes@, threads@),
                forall|x: FeedItem| out@.contains(x) <==> items@.take(k as int).contains(x),
                forall|i: int| 0 <= i < items@.len() ==> item_valid(#[trigger] items@[i], notes@, threads@),
                k < items@.len(),
                forall|q: int| 0 <= q < p ==> !text_lt(#[trigger] keys[q], kx@),
            ensures
                p <= out@.len(),
                forall|q: int| 0 <= q < p ==> !text_lt(#[trigger] keys[q], kx@),
                p < out@.len() ==> text_lt(keys[p as int], kx@),
            decreases out@.len() - p,
        {
            let ghost y = out@[p as int];
            assert(out@.contains(y));
            assert(items@.take(k as int).contains(y));
            let ky = recency_str(out[p], notes, threads);
            if text_less(ky, kx) {
                assert(keys[p as int] == ky@);
                break;
            }
            p += 1;
        }
        proof {
            assert forall|q: int| 0 <= q < p implies !text_lt(#[trigger] recency(out@[q], notes@, threads@), kx@) by {
                assert(keys[q] == recency(out@[q], notes@, threads@));
            }
            if p < out@.len() {
                assert(keys[p as int] == recency(out@[p as int], notes@, threads@));
            }
            lemma_first_older_is(out@, kx@, notes@, threads@, p as int);
            assert(items@.take(k + 1).drop_last() =~= items@.take(k as int));
            assert(items@.take(k + 1).last() == x);
            lemma_insert_keeps_sorted(keys, p as int, kx@);
            assert(keys_of(out@.insert(p as int, x), notes@, threads@) =~= keys.insert(p as int, kx@));
            assert(items@.take(k + 1) =~= items@.take(k as int).push(x));
            assert(!items@.take(k as int).contains(x)) by {
                if items@.take(k as int).contains(x) {
                    let j = choose|j: int| 0 <= j < k && items@.take(k as int)[j] == x;
                    assert(items@[j] == items@[k as int]);
                }
            }
        }
        let ghost before = out@;
        out.insert(p, x);
        proof {
            assert forall|z: FeedItem| out@.contains(z) <==> items@.take(k + 1).contains(z) by {
                let t1 = items@.take(k + 1);
                let t0 = items@.take(k as int);
                if out@.contains(z) {
                    let j = choose|j: int| 0 <= j < out@.len() && out@[j] == z;
                    if j != p {
                        let bj = if j < p { j } else { j - 1 };
                        assert(before[bj] == z);
                        assert(before.contains(z));
                        assert(t0.contains(z));
                        let w = choose|w: int| 0 <= w < t0.len() && t0[w] == z;
                        assert(t1[w] == z);
                    } else {
                        assert(t1[k as int] == x);
                    }
                    assert(t1.contains(z));
                }
                if items@.take(k + 1).contains(z) && z != x {
                    assert(items@.take(k as int).contains(z)) by {
                        let t1 = items@.take(k + 1);
                        let j = choose|j: int| 0 <= j < t1.len() && t1[j] == z;
                        assert(items@.take(k as int)[j] == z);
                    }
                    assert(before.contains(z));
                    let j = choose|j: int| 0 <= j < before.len() && before[j] == z;
                    if j < p {
                        assert(out@[j] == z);
                    } else {
                        assert(out@[j + 1] == z);
                    }
                }
                if z == x {
                    assert(out@[p as int] == x);
                }
            }
            assert forall|i: int, j: int| 0 <= i < out@.len() && 0 <= j < out@.len() && i != j implies out@[i] != out@[j] by {
                if i == p || j == p {
                    let o = if i == p { j } else { i };
                    let bo = if o < p { o } else { o - 1 };
                    assert(out@[o] == before[bo]);
                    assert(before.contains(before[bo]));
                } else {
                    let bi = if i < p { i } else { i - 1 };
                    let bj = if j < p { j } else { j - 1 };
                    assert(out@[i] == before[bi] && out@[j] == before[bj]);
                }
            }
        }
        k += 1;
    }
    assert(items@.take(items@.len() as int) =~= items@);
    out
}

} // verus!

verus! {

/// The list index a row points at.
pub open spec fn index_of(item: FeedItem) -> usize {
    match item {
        FeedItem::Note(i) => i,
        FeedItem::Thread(i) => i,
    }
}

/// The feed shows this row for the lowercased search `q` and toggles `f`.
pub open spec fn in_feed(
    item: FeedItem,
    notes: Seq<NoteRow>,
    threads: Seq<ThreadRow>,
    q: Seq<char>,
    f: NoteFilters,
    with_reminder: Seq<String>,
    with_document: Seq<String>,
) -> bool {
    match item {
        FeedItem::Note(i) => i < notes.len() && matches_spec(notes[i as int], q) && passes_spec(
            notes[i as int],
            f,
            with_reminder,
            with_document,
        ),
        FeedItem::Thread(i) => i < threads.len() && (f.none_on() || f.thread)
            && thread_matches_spec(threads[i as int], q),
    }
}

/// The notes the feed keeps among the first `n`, in list order.
pub open spec fn note_candidates(
    notes: Seq<NoteRow>,
    threads: Seq<ThreadRow>,
    q: Seq<char>,
    f: NoteFilters,
    with_reminder: Seq<String>,
    with_document: Seq<String>,
    n: int,
) -> Seq<FeedItem>
    decreases n,
{
    if n <= 0 {
        Seq::empty()
    } else {
        let before = note_candidates(notes, threads, q, f, with_reminder, with_document, n - 1);
        let x = FeedItem::Note((n - 1) as usize);
        if in_feed(x, notes, threads, q, f, with_reminder, with_document) {
            before.push(x)
        } else {
            before
        }
    }
}

/// The threads the feed keeps among the first `n`, in list order.
pub open spec fn thread_candidates(
    notes: Seq<NoteRow>,
    threads: Seq<ThreadRow>,
    q: Seq<char>,
    f: NoteFilters,
    with_reminder: Seq<String>,
    with_document: Seq<String>,
    n: int,
) -> Seq<FeedItem>
    decreases n,
{
    if n <= 0 {
        Seq::empty()
    } else {
        let before = thread_candidates(notes, threads, q, f, with_reminder, with_document, n - 1);
        let x = FeedItem::Thread((n - 1) as usize);
        if in_feed(x, notes, threads, q, f, with_reminder, with_document) {
            before.push(x)
        } else {
            before
        }
    }
}

/// The feed in full: the kept notes in list order, then the kept threads,
/// put newest first (rows of the same time keep that order).
pub open spec fn feed_spec(
    notes: Seq<NoteRow>,
    threads: Seq<ThreadRow>,
    q: Seq<char>,
    f: NoteFilters,
    with_reminder: Seq<String>,
    with_document: Seq<String>,
) -> Seq<FeedItem> {
    newest_first_order(
        note_candidates(notes, threads, q, f, with_reminder, with_document, notes.len() as int)
            + thread_candidates(notes, threads, q, f, with_reminder, with_document, threads.len() as int),
        notes,
        threads,
    )
}

/// The feed for the search `query` and the toggles `f`: every note the
/// search finds and the toggles keep, every thread the search finds when
/// threads are kept, each once, newest first.
pub fn build_feed(
    notes: &Vec<NoteRow>,
    threads: &Vec<ThreadRow>,
    query: &str,
    f: NoteFilters,
    with_reminder: &Vec<String>,
    with_document: &Vec<String>,
) -> (r: Vec<FeedItem>)
    ensures
        distinct(r@),
        forall|x: FeedItem|
            r@.contains(x) <==> in_feed(
                x,
                notes@,
                threads@,
                lowercase(query@),
                f,
                with_reminder@,
                with_document@,
            ),
        newest_first(r@, notes@, threads@),
        r@ == feed_spec(notes@, threads@, lowercase(query@), f, with_reminder@, with_document@),
{
    let q = to_lower(query);
    let ghost qs = lowercase(query@);
    let mut cands: Vec<FeedItem> = Vec::new();
    let mut i: usize = 0;
    while i < notes.len()
        invariant
            q@ == qs,
            i <= notes@.len(),
            distinct(cands@),
            forall|j: int| 0 <= j < cands@.len() ==> (#[trigger] cands@[j]) is Note && index_of(cands@[j]) < i,
            cands@ == note_candidates(notes@, threads@, qs, f, with_reminder@, with_document@, i as int),
            forall|x: FeedItem|
                cands@.contains(x) <==> (x is Note && index_of(x) < i && in_feed(
                    x,
                    notes@,
                    threads@,
                    qs,
                    f,
                    with_reminder@,
                    with_document@,
                )),
        decreases notes@.len() - i,
    {
        let n = &notes[i];
        if note_matches(n, q.as_str()) && note_passes(n, f, with_reminder, with_document) {
            let ghost before = cands@;
            cands.push(FeedItem::Note(i));
            proof {
                assert forall|x: FeedItem|
                    cands@.contains(x) <==> (x is Note && index_of(x) < i + 1 && in_feed(
                        x,
                        notes@,
                        threads@,
                        qs,
                        f,
                        with_reminder@,
                        with_document@,
                    )) by {
                    if cands@.contains(x) && x != FeedItem::Note(i) {
                        let j = choose|j: int| 0 <= j < cands@.len() && cands@[j] == x;
                        assert(before[j] == x);
                        assert(before.contains(x));
                    }
                    if x == FeedItem::Note(i) {
                        assert(notes@[i as int] == *n);
                    }
                    if x == FeedItem::Note(i) {
                        assert(cands@[before.len() as int] == x);
                    } else if x is Note && index_of(x) < i + 1 && in_feed(x, notes@, threads@, qs, f, with_reminder@, with_document@) {
                        assert(before.contains(x));
                        let j = choose|j: int| 0 <= j < before.len() && before[j] == x;
                        assert(cands@[j] == x);
                    }
                }
            }
        } else {
            proof {
                assert forall|x: FeedItem|
                    cands@.contains(x) <==> (x is Note && index_of(x) < i + 1 && in_feed(
                        x,
                        notes@,
                        threads@,
                        qs,
                        f,
                        with_reminder@,
                        with_document@,
                    )) by {
                    if x == FeedItem::Note(i) && cands@.contains(x) {
                        let j = choose|j: int| 0 <= j < cands@.len() && cands@[j] == x;
                    }
                }
            }
        }
        i += 1;
    }
    let keep = keep_threads(f);
    let mut t: usize = 0;
    assert(cands@ =~= note_candidates(notes@, threads@, qs, f, with_reminder@, with_document@, notes@.len() as int)
        + thread_candidates(notes@, threads@, qs, f, with_reminder@, with_document@, 0));
    while t < threads.len()
        invariant
            q@ == qs,
            keep == (f.none_on() || f.thread),
            t <= threads@.len(),
            distinct(cands@),
            forall|j: int| 0 <= j < cands@.len() ==> ((#[trigger] cands@[j]) is Note ==> index_of(cands@[j]) < notes@.len()) && (cands@[j] is Thread ==> index_of(cands@[j]) < t),
            cands@ == note_candidates(notes@, threads@, qs, f, with_reminder@, with_document@, notes@.len() as int)
                + thread_candidates(notes@, threads@, qs, f, with_reminder@, with_document@, t as int),
            forall|x: FeedItem|
                cands@.contains(x) <==> ((x is Note || index_of(x) < t) && in_feed(
                    x,
                    notes@,
                    threads@,
                    qs,
                    f,
                    with_reminder@,
                    with_document@,
                )),
        decreases threads@.len() - t,
    {
        if keep && thread_matches(&threads[t], q.as_str()) {
            let ghost before = cands@;
            cands.push(FeedItem::Thread(t));
            proof {
                assert(cands@ =~= note_candidates(notes@, threads@, qs, f, with_reminder@, with_document@, notes@.len() as int)
                    + thread_candidates(notes@, threads@, qs, f, with_reminder@, with_document@, t + 1));
                assert forall|x: FeedItem|
                    cands@.contains(x) <==> ((x is Note || index_of(x) < t + 1) && in_feed(
                        x,
                        notes@,
                        threads@,
                        qs,
                        f,
                        with_reminder@,
                        with_document@,
                    )) by {
                    if cands@.contains(x) && x != FeedItem::Thread(t) {
                        let j = choose|j: int| 0 <= j < cands@.len() && cands@[j] == x;
                        assert(before[j] == x);
                        assert(before.contains(x));
                    }
                    if x == FeedItem::Thread(t) {
                        assert(cands@[before.len() as int] == x);
                    } else if (x is Note || index_of(x) < t + 1) && in_feed(x, notes@, threads@, qs, f, with_reminder@, with_document@) {
                        assert(before.contains(x));
                        let j = choose|j: int| 0 <= j < before.len() && before[j] == x;
                        assert(cands@[j] == x);
                    }
                }
            }
        } else {
            proof {
                assert forall|x: FeedItem|
                    cands@.contains(x) <==> ((x is Note || index_of(x) < t + 1) && in_feed(
                        x,
                        notes@,
                        threads@,
                        qs,
                        f,
                        with_reminder@,
                        with_document@,
                    )) by {
                    if x == FeedItem::Thread(t) && cands@.contains(x) {
                        let j = choose|j: int| 0 <= j < cands@.len() && cands@[j] == x;
                    }
                }
            }
        }
        t += 1;
    }
    proof {
        assert forall|j: int| 0 <= j < cands@.len() implies item_valid(#[trigger] cands@[j], notes@, threads@) by {}
        assert forall|x: FeedItem|
            cands@.contains(x) <==> in_feed(x, notes@, threads@, qs, f, with_reminder@, with_document@) by {
            if in_feed(x, notes@, threads@, qs, f, with_reminder@, with_document@) && x is Thread {
                assert(index_of(x) < t);
            }
        }
    }
    sort_newest_first(&cands, notes, threads)
}

/// How many rows to show once the list is scrolled near its end: one page
/// more, never past the end.
pub fn next_visible_count(current: usize, total: usize) -> (r: usize)
    ensures
        current < total ==> r == (if current + NOTES_PAGE < total { current + NOTES_PAGE } else { total as int }),
        current >= total ==> r == current,
{
    if current < total {
        if total - current > NOTES_PAGE {
            current + NOTES_PAGE
        } else {
            total
        }
    } else {
        current
    }
}

/// Every toggle of `f` is also on in `g`.
pub open spec fn toggles_within(f: NoteFilters, g: NoteFilters) -> bool {
    (f.voice ==> g.voice) && (f.reminder ==> g.reminder) && (f.document ==> g.document) && (f.thread
        ==> g.thread)
}

/// Turning a toggle on only narrows the feed: whatever the feed shows with
/// more toggles on, it shows with fewer, for the same search.
pub proof fn lemma_more_toggles_narrow_the_feed(
    item: FeedItem,
    notes: Seq<NoteRow>,
    threads: Seq<ThreadRow>,
    q: Seq<char>,
    f: NoteFilters,
    g: NoteFilters,
    with_reminder: Seq<String>,
    with_document: Seq<String>,
)
    requires
        toggles_within(f, g),
        !g.thread || f.thread || item is Note,
    ensures
        in_feed(item, notes, threads, q, g, with_reminder, with_document) ==> in_feed(
            item,
            notes,
            threads,
            q,
            f,
            with_reminder,
            with_document,
        ),
{
}

/// The thread toggle alone shows threads only, and every thread the search
/// finds.
pub proof fn lemma_thread_toggle_shows_only_threads(
    item: FeedItem,
    notes: Seq<NoteRow>,
    threads: Seq<ThreadRow>,
    q: Seq<char>,
    with_reminder: Seq<String>,
    with_document: Seq<String>,
)
    ensures
        ({
            let f = NoteFilters { voice: false, reminder: false, document: false, thread: true };
            &&& in_feed(item, notes, threads, q, f, with_reminder, with_document) ==> item is Thread
            &&& item matches FeedItem::Thread(i) ==> (in_feed(item, notes, threads, q, f, with_reminder, with_document)
                <==> (i < threads.len() && thread_matches_spec(threads[i as int], q)))
        }),
{
}

/// What the search field's placeholder says.
#[derive(Clone, Copy, Debug)]
pub enum SearchHint {
    /// No toggle on: the plain search hint.
    Plain,
    /// One toggle on: its own wording (a text key).
    Named(&'static str),
    /// Several toggles on: how many.
    Count(usize),
}

/// The placeholder for the toggles `f`.
pub fn search_hint(f: NoteFilters) -> (r: SearchHint)
    ensures
        f.none_on() ==> r == SearchHint::Plain,
        !f.none_on() && placeholder_key(f).len() > 0 ==> (r matches SearchHint::Named(k) && k@ == placeholder_key(f)),
        !f.none_on() && placeholder_key(f).len() == 0 ==> r == SearchHint::Count(f.on_count() as usize),
{
    if f.is_empty() {
        SearchHint::Plain
    } else {
        let key = filter_placeholder_key(f);
        if key.is_empty() {
            SearchHint::Count(f.count())
        } else {
            SearchHint::Named(key)
        }
    }
}

/// The list is narrowed by a search or a toggle: an empty result then
/// says "no results" rather than welcoming a first note.
pub fn narrowed(query: &str, f: NoteFilters) -> (r: bool)
    ensures
        r == (query@.len() > 0 || !f.none_on()),
{
    !query.is_empty() || !f.is_empty()
}

/// One of the search bar's toggles.
#[derive(Clone, Copy, Debug, PartialEq, Eq, Structural)]
pub enum FilterKind {
    Voice,
    Reminder,
    Document,
    Thread,
}

/// The toggles with one of them flipped.
pub fn flip_filter(f: NoteFilters, which: FilterKind) -> (r: NoteFilters)
    ensures
        r.voice == (if which == FilterKind::Voice { !f.voice } else { f.voice }),
        r.reminder == (if which == FilterKind::Reminder { !f.reminder } else { f.reminder }),
        r.document == (if which == FilterKind::Document { !f.document } else { f.document }),
        r.thread == (if which == FilterKind::Thread { !f.thread } else { f.thread }),
{
    let mut n = f;
    match which {
        FilterKind::Voice => n.voice = !n.voice,
        FilterKind::Reminder => n.reminder = !n.reminder,
        FilterKind::Document => n.document = !n.document,
        FilterKind::Thread => n.thread = !n.thread,
    }
    n
}

} // verus!

verus! {

/// What each filter toggle does to a note, over every note and every pair
/// of marker lists: with no toggle on every note is kept; the thread toggle
/// keeps no note; turning the voice, reminder or document toggle on keeps
/// exactly the notes kept without it that are voice notes, are in the
/// reminder list, or are in the attachment list respectively; and a list
/// whose toggle is off has no say (the attachment list alone decides the
/// document toggle, the reminder list alone the reminder toggle).
pub proof fn lemma_filter_toggles(
    n: NoteRow,
    f: NoteFilters,
    with_reminder: Seq<String>,
    with_document: Seq<String>,
    other_reminder: Seq<String>,
    other_document: Seq<String>,
)
    ensures
        passes_spec(n, NoteFilters { voice: false, reminder: false, document: false, thread: false }, with_reminder, with_document),
        passes_spec(n, NoteFilters { thread: true, ..f }, with_reminder, with_document) == false,
        passes_spec(n, NoteFilters { voice: true, ..f }, with_reminder, with_document)
            == (passes_spec(n, NoteFilters { voice: false, ..f }, with_reminder, with_document) && n.is_voice),
        passes_spec(n, NoteFilters { reminder: true, ..f }, with_reminder, with_document)
            == (passes_spec(n, NoteFilters { reminder: false, ..f }, with_reminder, with_document) && listed(with_reminder, n.id@)),
        passes_spec(n, NoteFilters { document: true, ..f }, with_reminder, with_document)
            == (passes_spec(n, NoteFilters { document: false, ..f }, with_reminder, with_document) && listed(with_document, n.id@)),
        !f.reminder ==> passes_spec(n, f, with_reminder, with_document) == passes_spec(n, f, other_reminder, with_document),
        !f.document ==> passes_spec(n, f, with_reminder, with_document) == passes_spec(n, f, with_reminder, other_document),
        passes_spec(n, NoteFilters { voice: false, reminder: false, document: true, thread: false }, with_reminder, with_document)
            == listed(with_document, n.id@),
        passes_spec(n, NoteFilters { voice: false, reminder: true, document: false, thread: false }, with_reminder, with_document)
            == listed(with_reminder, n.id@),
{
}

} // verus!
