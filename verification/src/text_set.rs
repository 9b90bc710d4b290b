//! Sets of texts (expanded folders, checked tabs) kept as lists without
//! repeats.

use crate::text::{same_text, texts};
use vstd::prelude::*;

verus! {

/// No text appears twice.
pub open spec fn no_repeats(v: Seq<String>) -> bool {
    forall|i: int, j: int| 0 <= i < v.len() && 0 <= j < v.len() && i != j ==> v[i]@ != v[j]@
}

/// The set of texts the list holds.
pub open spec fn text_set(v: Seq<String>) -> Set<Seq<char>> {
    texts(v).to_set()
}

/// `y` is one of the first `n` texts of `v`.
pub open spec fn holds_upto(v: Seq<String>, n: int, y: Seq<char>) -> bool {
    exists|j: int| 0 <= j < n && j < v.len() && v[j]@ == y
}

/// `y` is one of the texts of `v`.
pub open spec fn holds(v: Seq<String>, y: Seq<char>) -> bool {
    holds_upto(v, v.len() as int, y)
}

/// `x` taken out of `s` when it is there, put in otherwise.
pub open spec fn toggled(s: Set<Seq<char>>, x: Seq<char>) -> Set<Seq<char>> {
    if s.contains(x) {
        s.remove(x)
    } else {
        s.insert(x)
    }
}

/// Toggling the same text twice gives back the set it started from (a
/// theme expanded and collapsed again, a tab checked and unchecked again).
pub proof fn lemma_toggle_twice(s: Set<Seq<char>>, x: Seq<char>)
    ensures
        toggled(toggled(s, x), x) == s,
{
    if s.contains(x) {
        assert(s.remove(x).insert(x) =~= s);
    } else {
        assert(s.insert(x).remove(x) =~= s);
    }
}

/// Where `x` sits in `v`, if it does.
pub fn position_of(v: &Vec<String>, x: &str) -> (r: Option<usize>)
    ensures
        r matches Some(i) ==> i < v@.len() && v@[i as int]@ == x@,
        r is None ==> forall|i: int| 0 <= i < v@.len() ==> v@[i]@ != x@,
{
    let mut i: usize = 0;
    while i < v.len()
        invariant
            i <= v@.len(),
            forall|j: int| 0 <= j < i ==> v@[j]@ != x@,
        decreases v@.len() - i,
    {
        if same_text(v[i].as_str(), x) {
            return Some(i);
        }
        i += 1;
    }
    None
}

fn clone_text(s: &String) -> (r: String)
    ensures
        r@ == s@,
{
    s.clone()
}

proof fn lemma_text_set_member(v: Seq<String>, x: Seq<char>)
    ensures
        text_set(v).contains(x) <==> holds(v, x),
{
    if text_set(v).contains(x) {
        assert(texts(v).contains(x));
        let i = choose|i: int| 0 <= i < texts(v).len() && texts(v)[i] == x;
        assert(v[i]@ == x);
    }
    if holds(v, x) {
        let i = choose|i: int| 0 <= i < v.len() && i < v.len() && v[i]@ == x;
        assert(texts(v)[i] == x);
        assert(texts(v).contains(x));
    }
}

/// `x` taken out of the set if it was in, put in if it was not.
pub fn toggle_text(v: &Vec<String>, x: &str) -> (r: Vec<String>)
    requires
        no_repeats(v@),
    ensures
        no_repeats(r@),
        text_set(r@) == toggled(text_set(v@), x@),
{
    let found = position_of(v, x);
    let mut out: Vec<String> = Vec::new();
    let mut i: usize = 0;
    while i < v.len()
        invariant
            i <= v@.len(),
            no_repeats(v@),
            found matches Some(k) ==> k < v@.len() && v@[k as int]@ == x@,
            found is None ==> forall|j: int| 0 <= j < v@.len() ==> v@[j]@ != x@,
            no_repeats(out@),
            forall|j: int| 0 <= j < out@.len() ==> out@[j]@ != x@,
            forall|y: Seq<char>| #[trigger] holds(out@, y) <==> (y != x@ && holds_upto(v@, i as int, y)),
        decreases v@.len() - i,
    {
        let keep = match found {
            Some(k) => k != i,
            None => true,
        };
        if keep {
            let c = clone_text(&v[i]);
            let ghost before = out@;
            proof {
                assert forall|j: int| 0 <= j < before.len() implies before[j]@ != c@ by {
                    let y = before[j]@;
                    assert(holds(before, y));
                    let jj = choose|jj: int| 0 <= jj < i && jj < v@.len() && v@[jj]@ == y;
                }
            }
            out.push(c);
            proof {
                assert forall|y: Seq<char>| #[trigger] holds(out@, y) <==> (y != x@ && holds_upto(v@, i + 1, y)) by {
                    if holds(out@, y) {
                        let j = choose|j: int| 0 <= j < out@.len() && j < out@.len() && out@[j]@ == y;
                        if j < before.len() {
                            assert(before[j]@ == y);
                            assert(holds(before, y));
                            let jj = choose|jj: int| 0 <= jj < i && jj < v@.len() && v@[jj]@ == y;
                            assert(holds_upto(v@, i + 1, y));
                        } else {
                            assert(v@[i as int]@ == y);
                            assert(holds_upto(v@, i + 1, y));
                        }
                    }
                    if y != x@ && holds_upto(v@, i + 1, y) {
                        let j = choose|j: int| 0 <= j < i + 1 && j < v@.len() && v@[j]@ == y;
                        if j < i {
                            assert(holds_upto(v@, i as int, y));
                            assert(holds(before, y));
                            let jj = choose|jj: int| 0 <= jj < before.len() && jj < before.len() && before[jj]@ == y;
                            assert(out@[jj]@ == y);
                        } else {
                            assert(out@[before.len() as int]@ == y);
                        }
                    }
                }
            }
        } else {
            proof {
                assert forall|y: Seq<char>| #[trigger] holds(out@, y) <==> (y != x@ && holds_upto(v@, i + 1, y)) by {
                    if holds(out@, y) {
                        assert(holds_upto(v@, i as int, y));
                        let j = choose|j: int| 0 <= j < i && j < v@.len() && v@[j]@ == y;
                        assert(holds_upto(v@, i + 1, y));
                    }
                    if y != x@ && holds_upto(v@, i + 1, y) {
                        let j = choose|j: int| 0 <= j < i + 1 && j < v@.len() && v@[j]@ == y;
                        assert(j < i);
                        assert(holds_upto(v@, i as int, y));
                    }
                }
            }
        }
        i += 1;
    }
    assert(i == v@.len());
    if found.is_none() {
        let ghost before = out@;
        out.push(String::from_str(x));
        proof {
            assert forall|y: Seq<char>| #[trigger] holds(out@, y) <==> (y == x@ || holds(v@, y)) by {
                if holds(out@, y) {
                    let j = choose|j: int| 0 <= j < out@.len() && j < out@.len() && out@[j]@ == y;
                    if j < before.len() {
                        assert(before[j]@ == y);
                        assert(holds(before, y));
                    }
                }
                if y == x@ {
                    assert(out@[before.len() as int]@ == y);
                } else if holds(v@, y) {
                    assert(holds(before, y));
                    let jj = choose|jj: int| 0 <= jj < before.len() && jj < before.len() && before[jj]@ == y;
                    assert(out@[jj]@ == y);
                }
            }
            assert forall|a: int, b: int| 0 <= a < out@.len() && 0 <= b < out@.len() && a != b implies out@[a]@ != out@[b]@ by {
                if a == before.len() {
                    assert(before[b]@ != x@);
                } else if b == before.len() {
                    assert(before[a]@ != x@);
                } else {
                    assert(out@[a] == before[a] && out@[b] == before[b]);
                }
            }
        }
    }
    proof {
        let target = if text_set(v@).contains(x@) {
            text_set(v@).remove(x@)
        } else {
            text_set(v@).insert(x@)
        };
        lemma_text_set_member(v@, x@);
        if found is Some {
            let k = found->0;
            assert(holds(v@, x@)) by {
                assert(v@[k as int]@ == x@);
            }
        } else {
            assert(!holds(v@, x@));
        }
        assert forall|y: Seq<char>| text_set(out@).contains(y) <==> target.contains(y) by {
            lemma_text_set_member(out@, y);
            lemma_text_set_member(v@, y);
            assert(holds(out@, y) == holds(out@, y));
        }
        assert(text_set(out@) =~= target);
    }
    out
}

/// `x` put in the set (which is unchanged when it already holds it), as
/// when creating a sub-theme expands its parent.
pub fn insert_text(v: &Vec<String>, x: &str) -> (r: Vec<String>)
    requires
        no_repeats(v@),
    ensures
        no_repeats(r@),
        text_set(r@) == text_set(v@).insert(x@),
{
    let found = position_of(v, x);
    let mut out = crate::text::copy_texts(v);
    proof {
        assert(out@.len() == texts(out@).len() && v@.len() == texts(v@).len());
        assert forall|i: int| 0 <= i < out@.len() implies out@[i]@ == v@[i]@ by {
            assert(texts(out@)[i] == out@[i]@);
            assert(texts(v@)[i] == v@[i]@);
        }
    }
    let ghost before = out@;
    match found {
        Some(k) => {
            proof {
                assert(texts(out@) == texts(v@));
                assert(texts(v@)[k as int] == x@);
                assert(text_set(v@).contains(x@));
                assert(text_set(v@).insert(x@) =~= text_set(v@));
            }
        },
        None => {
            out.push(String::from_str(x));
            proof {
                assert(texts(out@) =~= texts(v@).push(x@));
                texts(v@).lemma_push_to_set_commute(x@);
                assert forall|a: int, b: int| 0 <= a < out@.len() && 0 <= b < out@.len() && a != b implies out@[a]@ != out@[b]@ by {
                    if a == before.len() {
                        assert(v@[b]@ != x@);
                    } else if b == before.len() {
                        assert(v@[a]@ != x@);
                    } else {
                        assert(out@[a]@ == v@[a]@ && out@[b]@ == v@[b]@);
                    }
                }
            }
        },
    }
    proof {
        assert(texts(out@) == texts(v@) || texts(out@) =~= texts(v@).push(x@));
    }
    out
}

} // verus!
