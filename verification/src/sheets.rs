//! The spreadsheet connector's texts: links, dates and badges.

use crate::text::{char_prefix, concatenated, push_str, to_upper, uppercase};
use vstd::prelude::*;
use vstd::string::StringSliceAdditionalSpecFns;
use vstd::utf8::{decode_utf8, encode_utf8, is_char_boundary, valid_utf8};

verus! {

/// The address of a spreadsheet in Google Sheets.
pub open spec fn sheet_url_spec(id: Seq<char>) -> Seq<char> {
    "https://docs.google.com/spreadsheets/d/"@ + id + "/edit"@
}

/// The link that opens a spreadsheet.
pub fn sheet_url(id: &str) -> (r: String)
    ensures
        r@ == sheet_url_spec(id@),
{
    let mut out = concatenated("https://docs.google.com/spreadsheets/d/", id);
    push_str(&mut out, "/edit");
    out
}

/// Byte offsets 10, 11 and 16 of an ISO stamp fall between characters, as
/// they do in any ASCII stamp; slicing there is what `short_date` does.
pub open spec fn date_cuts_ok(bytes: Seq<u8>) -> bool {
    bytes.len() >= 16 ==> is_char_boundary(bytes, 10) && is_char_boundary(bytes, 11)
        && is_char_boundary(bytes, 16)
}

/// "YYYY-MM-DD HH:MM" from an ISO 8601 stamp of at least sixteen bytes
/// (bytes 0..10, a space, bytes 11..16); a shorter text is kept whole.
pub open spec fn short_date_spec(iso: Seq<char>) -> Seq<char> {
    let b = encode_utf8(iso);
    if b.len() >= 16 {
        decode_utf8(b.subrange(0, 10)) + seq![' '] + decode_utf8(b.subrange(11, 16))
    } else {
        iso
    }
}

/// A character boundary of the whole text is one of the text that starts at
/// an earlier boundary.
proof fn lemma_boundary_in_suffix(b: Seq<u8>, i: int, j: int)
    requires
        valid_utf8(b),
        0 <= i <= j <= b.len(),
        is_char_boundary(b, i),
        is_char_boundary(b, j),
    ensures
        valid_utf8(b.subrange(i, b.len() as int)),
        is_char_boundary(b.subrange(i, b.len() as int), j - i),
{
    broadcast use vstd::utf8::valid_utf8_split, vstd::utf8::is_char_boundary_iff_not_is_continuation_byte, vstd::utf8::is_char_boundary_start_end_of_seq;

    let s = b.subrange(i, b.len() as int);
    assert(valid_utf8(s));
    if j < b.len() {
        assert(s[j - i] == b[j]);
        assert(is_char_boundary(b, j) <==> !vstd::utf8::is_continuation_byte(b[j]));
        assert(is_char_boundary(s, j - i) <==> !vstd::utf8::is_continuation_byte(s[j - i]));
    } else {
        assert(is_char_boundary(s, s.len() as int));
    }
}

/// The text of a slice is the decoding of its bytes.
proof fn lemma_text_of_bytes(s: &str)
    ensures
        s@ == decode_utf8(s.spec_bytes()),
{
    vstd::utf8::encode_utf8_decode_utf8(s@);
}

/// A stamp shortened to its date and minute, so that two sheets of the
/// same name can be told apart.
pub fn short_date(iso: &str) -> (r: String)
    requires
        date_cuts_ok(iso.spec_bytes()),
    ensures
        r@ == short_date_spec(iso@),
{
    let ghost b = iso.spec_bytes();
    proof {
        vstd::utf8::encode_utf8_valid_utf8(iso@);
    }
    let bytes = iso.as_bytes();
    if bytes.len() >= 16 {
        let (head, _) = iso.split_at(10);
        let (_, rest) = iso.split_at(11);
        proof {
            lemma_boundary_in_suffix(b, 11, 16);
            assert(rest.spec_bytes() =~= b.subrange(11, b.len() as int));
        }
        let (clock, _) = rest.split_at(5);
        proof {
            lemma_text_of_bytes(head);
            lemma_text_of_bytes(clock);
            assert(clock.spec_bytes() =~= b.subrange(11, 16));
        }
        let mut out = String::from_str(head);
        push_str(&mut out, " ");
        push_str(&mut out, clock);
        proof {
            reveal_strlit(" ");
            assert(head.spec_bytes() =~= b.subrange(0, 10));
            assert(head@ == decode_utf8(b.subrange(0, 10)));
            assert(clock@ == decode_utf8(b.subrange(11, 16)));
            assert(" "@ =~= seq![' ']);
            assert(out@ =~= head@ + seq![' '] + clock@);
            assert(b == encode_utf8(iso@));
            assert(b.len() >= 16);
            assert(out@ == short_date_spec(iso@));
        }
        out
    } else {
        String::from_str(iso)
    }
}

/// The badge of a connector without a logo: its name's first character in
/// upper case, nothing for an empty name.
pub fn connector_initial(name: &str) -> (r: String)
    ensures
        r@ == uppercase(name@.take(if name@.len() == 0 { 0 } else { 1 })),
{
    let head = char_prefix(name, 1);
    to_upper(head.as_str())
}

/// A connector as the backend lists it.
#[derive(Debug)]
pub struct ConnectorState {
    pub provider: String,
    pub connected: bool,
}

/// The backend reports `provider` connected.
pub open spec fn reports_connected(list: Seq<ConnectorState>, provider: Seq<char>) -> bool {
    exists|i: int| 0 <= i < list.len() && list[i].provider@ == provider && list[i].connected
}

/// Whether the list shows `provider` connected.
pub fn is_connected(list: &Vec<ConnectorState>, provider: &str) -> (r: bool)
    ensures
        r == reports_connected(list@, provider@),
{
    let mut i: usize = 0;
    while i < list.len()
        invariant
            i <= list@.len(),
            forall|j: int| 0 <= j < i ==> !(list@[j].provider@ == provider@ && list@[j].connected),
        decreases list@.len() - i,
    {
        if list[i].connected && crate::text::same_text(list[i].provider.as_str(), provider) {
            return true;
        }
        i += 1;
    }
    false
}

/// How many times the consent wait asks the backend (every two seconds,
/// about five minutes).
pub const CONNECT_POLLS: u32 = 150;

/// Where the wait for a connector's consent stands after a poll.
#[derive(Debug, Clone, Copy, PartialEq, Eq, Structural)]
pub enum ConnectWait {
    /// The backend reports the connector connected.
    Connected,
    /// Ask again.
    Again,
    /// Every poll is spent: the wait failed.
    TimedOut,
}

/// After poll number `polls_done` (from one): connected as soon as the
/// backend says so; a failed listing is a blip while the app was in the
/// background, not a failure; only running out of polls is.
pub fn connect_wait(polls_done: u32, listing: &Option<Vec<ConnectorState>>, provider: &str) -> (r: ConnectWait)
    ensures
        r == (if listing is Some && reports_connected(listing->0@, provider@) {
            ConnectWait::Connected
        } else if polls_done >= CONNECT_POLLS {
            ConnectWait::TimedOut
        } else {
            ConnectWait::Again
        }),
{
    if let Some(list) = listing {
        if is_connected(list, provider) {
            return ConnectWait::Connected;
        }
    }
    if polls_done >= CONNECT_POLLS {
        ConnectWait::TimedOut
    } else {
        ConnectWait::Again
    }
}

/// Opening the spreadsheet list, or closing it (which drops the loaded
/// pick list so that reopening starts clean): the new state, and whether
/// to clear the list.
pub fn toggle_sheet_list(open: bool) -> (r: (bool, bool))
    ensures
        r == (!open, open),
{
    (!open, open)
}

} // verus!
