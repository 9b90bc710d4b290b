//! Linking the app to a web account: the account site's pages, and whether
//! a link code may still be shown.

use crate::dates::{rfc3339_utc, utc_now, utc_stamp, Stamp};
use crate::text::{is_fr, lang_is_fr, push_str};
use vstd::prelude::*;

verus! {

/// A page of the account site, under "/fr" for French.
pub open spec fn account_url_spec(lang: Seq<char>, path: Seq<char>) -> Seq<char> {
    "https://account.flowflow.be"@ + (if is_fr(lang) { "/fr"@ } else { Seq::empty() }) + path
}

/// The address of an account page in the user's language.
pub fn account_url(lang: &str, path: &str) -> (r: String)
    ensures
        r@ == account_url_spec(lang@, path@),
{
    let mut out = String::from_str("https://account.flowflow.be");
    if lang_is_fr(lang) {
        push_str(&mut out, "/fr");
    }
    push_str(&mut out, path);
    proof {
        assert(Seq::<char>::empty() + path@ =~= path@);
    }
    out
}

/// `a` is a later instant than `b` (both in UTC): by day, then second,
/// then nanosecond, as chrono orders date-times.
pub open spec fn later(a: Stamp, b: Stamp) -> bool {
    ||| a.day_number > b.day_number
    ||| a.day_number == b.day_number && a.second_of_day() > b.second_of_day()
    ||| a.day_number == b.day_number && a.second_of_day() == b.second_of_day() && a.nanos > b.nanos
}

/// Whether an instant is later than another.
pub fn is_later(a: &Stamp, b: &Stamp) -> (r: bool)
    requires
        a.wf(),
        b.wf(),
    ensures
        r == later(*a, *b),
{
    let sa = a.hour * 3600 + a.minute * 60 + a.second;
    let sb = b.hour * 3600 + b.minute * 60 + b.second;
    if a.day_number != b.day_number {
        a.day_number > b.day_number
    } else if sa != sb {
        sa > sb
    } else {
        a.nanos > b.nanos
    }
}

/// A link code is shown while its expiry (RFC 3339) is after `now`; an
/// expiry chrono cannot read counts as expired.
pub fn code_valid_at(expires: &str, now: &Stamp) -> (r: bool)
    requires
        now.wf(),
    ensures
        r == (match rfc3339_utc(expires@) {
            Some(e) => later(e, *now),
            None => false,
        }),
{
    match utc_stamp(expires) {
        Some(e) => is_later(&e, now),
        None => false,
    }
}

/// The code to show, if it has not expired by `now`.
pub fn valid_code_at(code: Option<(String, String)>, now: &Stamp) -> (r: Option<(String, String)>)
    requires
        now.wf(),
    ensures
        match code {
            Some((token, expires)) => if (match rfc3339_utc(expires@) {
                Some(e) => later(e, *now),
                None => false,
            }) {
                r == Some((token, expires))
            } else {
                r is None
            },
            None => r is None,
        },
{
    match code {
        Some((token, expires)) => {
            if code_valid_at(expires.as_str(), now) {
                Some((token, expires))
            } else {
                None
            }
        },
        None => None,
    }
}

/// The code shown at `now`: the code itself while its expiry is after
/// `now`, nothing otherwise (nor for an expiry chrono cannot read).
pub open spec fn shown_code(code: Option<(String, String)>, now: Stamp) -> Option<(String, String)> {
    match code {
        Some((token, expires)) => match rfc3339_utc(expires@) {
            Some(e) => if later(e, now) {
                Some((token, expires))
            } else {
                None
            },
            None => None,
        },
        None => None,
    }
}

/// The code to show now: one whose expiry cannot be read is never shown;
/// otherwise it is shown exactly while its expiry is after the instant
/// chrono's clock gives (which the contract cannot name).
pub fn valid_code(code: Option<(String, String)>) -> (r: Option<(String, String)>)
    ensures
        r matches Some(c) ==> code == Some(c) && rfc3339_utc(c.1@) is Some,
        exists|now: Stamp| now.wf() && now.consistent() && r == #[trigger] shown_code(code, now),
{
    let now = utc_now();
    let ghost given = code;
    let r = valid_code_at(code, &now);
    assert(r == shown_code(given, now));
    r
}

} // verus!
