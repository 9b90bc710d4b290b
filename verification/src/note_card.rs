//! What a note's card in the list shows.

use crate::text::{char_prefix, chars_of, push_str};
use vstd::prelude::*;
use vstd::string::StringSliceAdditionalSpecFns;
use vstd::utf8::is_char_boundary;

verus! {

/// A card's preview: the note's plain text, cut to 120 characters with
/// "..." when longer.
pub open spec fn card_preview_spec(plain: Seq<char>) -> Seq<char> {
    if plain.len() > 120 {
        plain.take(120) + "..."@
    } else {
        plain
    }
}

/// The preview line of a card, from the note's plain text.
pub fn card_preview(plain: &str) -> (r: String)
    ensures
        r@ == card_preview_spec(plain@),
{
    if chars_of(plain).len() > 120 {
        let mut out = char_prefix(plain, 120);
        push_str(&mut out, "...");
        out
    } else {
        String::from_str(plain)
    }
}

/// A card's date: the first ten bytes of the note's stored timestamp (its
/// day), which must end on a character boundary as they do in any stored
/// stamp.
pub fn card_date(created_at: &str) -> (r: &str)
    requires
        is_char_boundary(created_at.spec_bytes(), 10),
    ensures
        r.spec_bytes() =~= created_at.spec_bytes().subrange(0, 10),
{
    proof {
        vstd::utf8::encode_utf8_valid_utf8(created_at@);
    }
    let (day, _) = created_at.split_at(10);
    day
}

/// A card's title: the note's, or the "untitled" label.
pub fn card_title(title: &Option<String>, untitled: &str) -> (r: String)
    ensures
        r@ == (match title {
            Some(t) => t@,
            None => untitled@,
        }),
{
    match title {
        Some(t) => String::from_str(t.as_str()),
        None => String::from_str(untitled),
    }
}

} // verus!
