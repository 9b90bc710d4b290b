//! A note's tags: typed ones, generated ones, removed ones. A tag appears
//! at most once.

use crate::text::{texts, trim, trimmed};
use crate::text_set::{holds, no_repeats, position_of};
use vstd::prelude::*;

verus! {

/// Tags are typed by hand only while the note has fewer than this many.
pub const MAX_TYPED_TAGS: usize = 3;

/// Whether the tag field is shown: fewer than three tags.
pub fn shows_tag_input(tags: &Vec<String>) -> (r: bool)
    ensures
        r == (tags@.len() < 3),
{
    tags.len() < MAX_TYPED_TAGS
}

/// Whether "generate tags" can be pressed: not while tags are being
/// generated, and only for content of at least 20 bytes once trimmed.
pub fn can_auto_tag(tagging: bool, content: &str) -> (r: bool)
    ensures
        r == (!tagging && (vstd::utf8::encode_utf8(trimmed(content@)).len() as usize) >= 20),
{
    if tagging {
        return false;
    }
    let t = trim(content);
    t.as_str().len() >= 20
}

/// Adds the typed `input`, trimmed, unless it is blank or already a tag.
/// Returns whether it was added (the field is then cleared).
pub fn add_tag(tags: &mut Vec<String>, input: &str) -> (added: bool)
    ensures
        added == (trimmed(input@).len() > 0 && !holds(old(tags)@, trimmed(input@))),
        added ==> texts(final(tags)@) == texts(old(tags)@).push(trimmed(input@)),
        !added ==> final(tags)@ == old(tags)@,
{
    let v = trim(input);
    if v.as_str().is_empty() {
        return false;
    }
    match position_of(tags, v.as_str()) {
        Some(_) => false,
        None => {
            let ghost before = tags@;
            tags.push(v);
            assert(texts(tags@) =~= texts(before).push(trimmed(input@)));
            true
        },
    }
}

/// Removes the tag at `i`.
pub fn remove_tag(tags: &mut Vec<String>, i: usize)
    requires
        i < old(tags)@.len(),
    ensures
        final(tags)@ == old(tags)@.remove(i as int),
{
    tags.remove(i);
}

/// `current` followed by each tag of `generated` not already there.
pub open spec fn merged_tags(current: Seq<Seq<char>>, generated: Seq<Seq<char>>) -> Seq<Seq<char>>
    decreases generated.len(),
{
    if generated.len() == 0 {
        current
    } else {
        let rest = merged_tags(current, generated.drop_last());
        let t = generated.last();
        if rest.contains(t) {
            rest
        } else {
            rest.push(t)
        }
    }
}

/// Adds the generated tags that the note does not have yet, in their order.
pub fn merge_tags(current: &Vec<String>, generated: &Vec<String>) -> (r: Vec<String>)
    ensures
        texts(r@) == merged_tags(texts(current@), texts(generated@)),
{
    let mut out = crate::text::copy_texts(current);
    let mut i: usize = 0;
    while i < generated.len()
        invariant
            i <= generated@.len(),
            texts(out@) == merged_tags(texts(current@), texts(generated@).take(i as int)),
        decreases generated@.len() - i,
    {
        let ghost prev = texts(out@);
        assert(texts(generated@).take(i + 1).drop_last() =~= texts(generated@).take(i as int));
        assert(texts(generated@).take(i + 1).last() == generated@[i as int]@);
        match position_of(&out, generated[i].as_str()) {
            Some(k) => {
                assert(prev[k as int] == generated@[i as int]@);
                assert(prev.contains(generated@[i as int]@));
            },
            None => {
                assert(!prev.contains(generated@[i as int]@)) by {
                    if prev.contains(generated@[i as int]@) {
                        let k = choose|k: int| 0 <= k < prev.len() && prev[k] == generated@[i as int]@;
                        assert(out@[k]@ == generated@[i as int]@);
                    }
                }
                out.push(String::from_str(generated[i].as_str()));
                assert(texts(out@) =~= prev.push(generated@[i as int]@));
            },
        }
        i += 1;
    }
    assert(texts(generated@).take(generated@.len() as int) =~= texts(generated@));
    out
}

/// No text repeats in a sequence of texts.
pub open spec fn unique_texts(s: Seq<Seq<char>>) -> bool {
    forall|i: int, j: int| 0 <= i < s.len() && 0 <= j < s.len() && i != j ==> s[i] != s[j]
}

/// Merging generated tags never makes a tag appear twice.
pub proof fn lemma_merge_keeps_tags_unique(current: Seq<Seq<char>>, generated: Seq<Seq<char>>)
    requires
        unique_texts(current),
    ensures
        unique_texts(merged_tags(current, generated)),
    decreases generated.len(),
{
    if generated.len() > 0 {
        lemma_merge_keeps_tags_unique(current, generated.drop_last());
        let rest = merged_tags(current, generated.drop_last());
        let t = generated.last();
        if !rest.contains(t) {
            let n = rest.push(t);
            assert forall|i: int, j: int| 0 <= i < n.len() && 0 <= j < n.len() && i != j implies n[i] != n[j] by {
                if i == rest.len() {
                    assert(rest[j] != t);
                } else if j == rest.len() {
                    assert(rest[i] != t);
                }
            }
        }
    }
}

/// Merging keeps every tag the note had, and every generated tag ends up
/// on the note.
pub proof fn lemma_merge_covers_both(current: Seq<Seq<char>>, generated: Seq<Seq<char>>)
    ensures
        forall|t: Seq<char>| current.contains(t) ==> merged_tags(current, generated).contains(t),
        forall|t: Seq<char>| generated.contains(t) ==> merged_tags(current, generated).contains(t),
        merged_tags(current, generated).len() >= current.len(),
        merged_tags(current, generated).take(current.len() as int) == current,
    decreases generated.len(),
{
    if generated.len() == 0 {
        assert(current.take(current.len() as int) =~= current);
    } else {
        lemma_merge_covers_both(current, generated.drop_last());
        let rest = merged_tags(current, generated.drop_last());
        let t = generated.last();
        let m = merged_tags(current, generated);
        assert forall|u: Seq<char>| rest.contains(u) implies m.contains(u) by {
            let k = choose|k: int| 0 <= k < rest.len() && rest[k] == u;
            if !rest.contains(t) {
                assert(rest.push(t)[k] == u);
            }
        }
        assert(m.contains(t)) by {
            if !rest.contains(t) {
                assert(rest.push(t)[rest.len() as int] == t);
            }
        }
        if !rest.contains(t) {
            assert(rest.push(t).take(current.len() as int) =~= rest.take(current.len() as int));
        }
        assert forall|u: Seq<char>| generated.contains(u) implies m.contains(u) by {
            let k = choose|k: int| 0 <= k < generated.len() && generated[k] == u;
            if k < generated.len() - 1 {
                assert(generated.drop_last()[k] == u);
                assert(generated.drop_last().contains(u));
            }
        }
    }
}

/// Adding a typed tag never makes a tag appear twice.
pub proof fn lemma_add_keeps_tags_unique(tags: Seq<String>, t: Seq<char>)
    requires
        no_repeats(tags),
        !holds(tags, t),
    ensures
        unique_texts(texts(tags).push(t)),
{
    let n = texts(tags).push(t);
    assert forall|i: int, j: int| 0 <= i < n.len() && 0 <= j < n.len() && i != j implies n[i] != n[j] by {
        if i == tags.len() {
            assert(tags[j]@ != t);
        } else if j == tags.len() {
            assert(tags[i]@ != t);
        }
    }
}

} // verus!
