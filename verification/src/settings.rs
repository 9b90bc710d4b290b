//! Reading and writing the settings the settings screens edit.

use crate::text::{concatenated, decimal, decimal_string, push_char, push_str};
use vstd::prelude::*;

verus! {

/// Every character of `s` is an ASCII digit, and there is one at least.
pub open spec fn all_digits(s: Seq<char>) -> bool {
    s.len() > 0 && forall|i: int| 0 <= i < s.len() ==> '0' <= #[trigger] s[i] <= '9'
}

/// The number the decimal digits of `s` spell.
pub open spec fn digits_value(s: Seq<char>) -> int
    decreases s.len(),
{
    if s.len() == 0 {
        0
    } else {
        digits_value(s.drop_last()) * 10 + (s.last() as int - '0' as int)
    }
}

/// The integer `s` spells as std reads it: an optional `+` or `-` followed
/// by digits only; `None` for anything else (whitespace included).
pub open spec fn integer_text(s: Seq<char>) -> Option<int> {
    if s.len() > 0 && (s[0] == '+' || s[0] == '-') {
        if all_digits(s.drop_first()) {
            Some(if s[0] == '-' { -digits_value(s.drop_first()) } else { digits_value(s.drop_first()) })
        } else {
            None
        }
    } else if all_digits(s) {
        Some(digits_value(s))
    } else {
        None
    }
}

/// What `s.parse::<i64>()` gives, as an option.
pub open spec fn parsed_i64(s: Seq<char>) -> Option<i64> {
    match integer_text(s) {
        Some(v) => if i64::MIN <= v <= i64::MAX {
            Some(v as i64)
        } else {
            None
        },
        None => None,
    }
}

/// Reads an `i64` with std's `str::parse`.
///
/// Trusted: as std documents `i64::from_str`, the text must be an optional
/// sign followed by digits only, and the value must fit; any other text is
/// an error.
#[verifier::external_body]
fn parse_i64(s: &str) -> (r: Option<i64>)
    ensures
        r == parsed_i64(s@),
{
    s.parse::<i64>().ok()
}

/// How many sources a chat answer cites when nothing (or nothing readable)
/// is stored.
pub const DEFAULT_MAX_SOURCES: i64 = 8;

/// The stored number of sources, or the default.
pub fn max_sources(stored: &Option<String>) -> (r: i64)
    ensures
        r == (match stored {
            Some(s) => match parsed_i64(s@) {
                Some(v) => v,
                None => DEFAULT_MAX_SOURCES,
            },
            None => DEFAULT_MAX_SOURCES,
        }),
{
    match stored {
        Some(s) => match parse_i64(s.as_str()) {
            Some(v) => v,
            None => DEFAULT_MAX_SOURCES,
        },
        None => DEFAULT_MAX_SOURCES,
    }
}

/// The value the slider reports, when it reads as a number.
pub fn slider_value(input: &str) -> (r: Option<i64>)
    ensures
        r == parsed_i64(input@),
{
    parse_i64(input)
}

/// A stored flag is on when it holds exactly `on`.
pub fn flag_is(stored: &Option<String>, on: &str) -> (r: bool)
    ensures
        r == (match stored {
            Some(s) => s@ == on@,
            None => false,
        }),
{
    match stored {
        Some(s) => crate::text::same_text(s.as_str(), on),
        None => false,
    }
}

/// What the debug-trace switch stores.
pub fn debug_flag_value(on: bool) -> (r: &'static str)
    ensures
        r@ == (if on { "1"@ } else { "0"@ }),
{
    if on {
        "1"
    } else {
        "0"
    }
}

/// The key to store from what was typed in a key field: trimmed, and only
/// when something is left.
pub fn key_to_store(input: &str) -> (r: Option<String>)
    ensures
        crate::text::opt_text(r) == crate::text::entered_spec(input@),
{
    crate::text::entered(input)
}

/// The decimal text of a signed integer, as `to_string` writes it.
pub open spec fn signed_decimal(n: int) -> Seq<char> {
    if n < 0 {
        seq!['-'] + decimal((-n) as nat)
    } else {
        decimal(n as nat)
    }
}

/// What is stored for a number of sources.
pub fn number_text(n: i64) -> (r: String)
    ensures
        r@ == signed_decimal(n as int),
{
    if n < 0 {
        let m: i128 = -(n as i128);
        let mut out = String::new();
        push_char(&mut out, '-');
        let digits = decimal_string(m as u64);
        push_str(&mut out, digits.as_str());
        out
    } else {
        decimal_string(n as u64)
    }
}

/// A label followed by a count in brackets, as "Delete audio (3)".
pub fn with_count(label: &str, n: u64) -> (r: String)
    ensures
        r@ == label@ + " ("@ + decimal(n as nat) + ")"@,
{
    let mut out = concatenated(label, " (");
    let digits = decimal_string(n);
    push_str(&mut out, digits.as_str());
    push_str(&mut out, ")");
    out
}

/// A count followed by a label, as "3 deleted".
pub fn count_then(n: u64, label: &str) -> (r: String)
    ensures
        r@ == decimal(n as nat) + " "@ + label@,
{
    let mut out = decimal_string(n);
    push_str(&mut out, " ");
    push_str(&mut out, label);
    out
}

/// A label, a colon and a detail, as an error line shows them.
pub fn label_detail(label: &str, detail: &str) -> (r: String)
    ensures
        r@ == label@ + ": "@ + detail@,
{
    let mut out = concatenated(label, ": ");
    push_str(&mut out, detail);
    out
}

} // verus!

verus! {

/// An export or an import of a backup may start only when none runs and no
/// restore holds the lock.
pub fn backup_allowed(busy: bool, restore_lock: bool) -> (r: bool)
    ensures
        r == (!busy && !restore_lock),
{
    !busy && !restore_lock
}

} // verus!

verus! {

/// What a press on the audio clean-up button does.
#[derive(Clone, Copy, Debug, PartialEq, Eq, Structural)]
pub enum CleanupStep {
    /// Ask for confirmation: the button turns red for a few seconds.
    Arm,
    /// Delete every recording and disarm.
    Run,
}

/// The clean-up takes two presses: the first arms the button, a second one
/// while it is armed deletes.
pub fn cleanup_pressed(armed: bool) -> (r: CleanupStep)
    ensures
        r == (if armed { CleanupStep::Run } else { CleanupStep::Arm }),
{
    if armed {
        CleanupStep::Run
    } else {
        CleanupStep::Arm
    }
}

} // verus!

verus! {

/// The settings the intelligence screen's save writes, in order: each API
/// key trimmed, only when something is left of it, then the number of
/// sources, always.
pub open spec fn intelligence_writes_spec(openai: Seq<char>, exa: Seq<char>, max_sources: int) -> Seq<(Seq<char>, Seq<char>)> {
    let first = match crate::text::entered_spec(openai) {
        Some(k) => seq![("openai_api_key"@, k)],
        None => Seq::empty(),
    };
    let second = match crate::text::entered_spec(exa) {
        Some(k) => seq![("exa_api_key"@, k)],
        None => Seq::empty(),
    };
    first + second + seq![("rag_max_sources"@, signed_decimal(max_sources))]
}

/// The (setting, value) pairs the intelligence screen's save writes.
pub fn intelligence_writes(openai: &str, exa: &str, max_sources: i64) -> (r: Vec<(String, String)>)
    ensures
        r@.map_values(|w: (String, String)| (w.0@, w.1@)) == intelligence_writes_spec(openai@, exa@, max_sources as int),
{
    let mut out: Vec<(String, String)> = Vec::new();
    let ghost mut want: Seq<(Seq<char>, Seq<char>)> = Seq::empty();
    match key_to_store(openai) {
        Some(k) => {
            proof {
                want = want.push(("openai_api_key"@, k@));
            }
            out.push((String::from_str("openai_api_key"), k));
        },
        None => {},
    }
    match key_to_store(exa) {
        Some(k) => {
            proof {
                want = want.push(("exa_api_key"@, k@));
            }
            out.push((String::from_str("exa_api_key"), k));
        },
        None => {},
    }
    let n = number_text(max_sources);
    proof {
        want = want.push(("rag_max_sources"@, n@));
    }
    out.push((String::from_str("rag_max_sources"), n));
    proof {
        assert(out@.map_values(|w: (String, String)| (w.0@, w.1@)) =~= want);
        assert(want =~= intelligence_writes_spec(openai@, exa@, max_sources as int));
    }
    out
}

} // verus!
