//! The chats listed in the sidebar: the search over their titles, and what
//! each row shows.

use crate::text::{contains_text, has_substring, lowercase, to_lower};
use vstd::prelude::*;
use vstd::string::StringSliceAdditionalSpecFns;
use vstd::utf8::is_char_boundary;

verus! {

/// A title matches a search when, both lower-cased, the query occurs in
/// it.
pub open spec fn title_matches(title: Seq<char>, query: Seq<char>) -> bool {
    has_substring(lowercase(title), lowercase(query))
}

/// The positions of the chats the search keeps, in order: all of them for
/// an empty (lower-cased) query.
pub open spec fn kept_chats(titles: Seq<String>, query: Seq<char>, n: int) -> Seq<usize>
    decreases n,
{
    if n <= 0 {
        Seq::empty()
    } else {
        let before = kept_chats(titles, query, n - 1);
        if lowercase(query).len() == 0 || title_matches(titles[n - 1]@, query) {
            before.push((n - 1) as usize)
        } else {
            before
        }
    }
}

/// Filters the chats by a search over their titles.
pub fn search_chats(titles: &Vec<String>, query: &str) -> (r: Vec<usize>)
    ensures
        r@ == kept_chats(titles@, query@, titles@.len() as int),
{
    let q = to_lower(query);
    let all = q.as_str().is_empty();
    let mut out: Vec<usize> = Vec::new();
    let mut i: usize = 0;
    while i < titles.len()
        invariant
            i <= titles@.len(),
            q@ == lowercase(query@),
            all == (lowercase(query@).len() == 0),
            out@ == kept_chats(titles@, query@, i as int),
        decreases titles@.len() - i,
    {
        if all {
            out.push(i);
        } else {
            let t = to_lower(titles[i].as_str());
            if contains_text(t.as_str(), q.as_str()) {
                out.push(i);
            }
        }
        i += 1;
    }
    out
}

/// A chat's title, or the "untitled" label for an empty one.
pub fn chat_title(title: &str, untitled: &str) -> (r: String)
    ensures
        r@ == (if title@.len() == 0 { untitled@ } else { title@ }),
{
    if title.is_empty() {
        String::from_str(untitled)
    } else {
        String::from_str(title)
    }
}

/// A chat's date: the first ten bytes of its stamp (its day) when it has
/// that many, which must then end on a character boundary as in any stored
/// stamp; a shorter stamp whole.
pub fn chat_date(modified_at: &str) -> (r: &str)
    requires
        modified_at.spec_bytes().len() >= 10 ==> is_char_boundary(modified_at.spec_bytes(), 10),
    ensures
        modified_at.spec_bytes().len() >= 10 ==> r.spec_bytes() =~= modified_at.spec_bytes().subrange(0, 10),
        modified_at.spec_bytes().len() < 10 ==> r@ == modified_at@,
{
    proof {
        vstd::utf8::encode_utf8_valid_utf8(modified_at@);
    }
    let bytes = modified_at.as_bytes();
    if bytes.len() >= 10 {
        let (day, _) = modified_at.split_at(10);
        day
    } else {
        modified_at
    }
}

} // verus!
