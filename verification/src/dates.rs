//! Dates as the note screens show them: how long ago, which day, which
//! group of the feed. Parsing and the clock come from chrono; deciding what
//! to show is done here, on plain calendar fields.

use crate::text::{decimal, push_char, push_two_digits, two_digits};
use chrono::{Datelike, Timelike};
use vstd::prelude::*;
use vstd::string::StringSliceAdditionalSpecFns;

verus! {

/// A calendar date and wall-clock time, as chrono reports its fields.
#[derive(Clone, Copy, Debug, PartialEq, Eq, Structural)]
pub struct Stamp {
    pub year: i32,
    /// 1 to 12.
    pub month: u32,
    /// 1 to 31.
    pub day: u32,
    /// 0 to 23.
    pub hour: u32,
    /// 0 to 59.
    pub minute: u32,
    /// 0 to 59.
    pub second: u32,
    /// Nanoseconds past the second; 1e9 and above mark a leap second.
    pub nanos: u32,
    /// Days since 1 January of year 1 (chrono's `num_days_from_ce`).
    pub day_number: i32,
}

impl Stamp {
    /// The ranges chrono guarantees for each field.
    pub open spec fn wf(self) -> bool {
        &&& 1 <= self.month <= 12
        &&& 1 <= self.day <= 31
        &&& self.hour < 24
        &&& self.minute < 60
        &&& self.second < 60
        &&& self.nanos < 2_000_000_000
    }

    /// Seconds since midnight, leap second excluded.
    pub open spec fn second_of_day(self) -> int {
        self.hour * 3600 + self.minute * 60 + self.second
    }

    /// The date is a real date of the proleptic Gregorian calendar, and
    /// `day_number` counts its days from 1 January of year 1 (day 1).
    pub open spec fn consistent(self) -> bool {
        &&& self.day <= days_in_month(self.year as int, self.month as int)
        &&& self.day_number == civil_day(self.year as int, self.month as int, self.day as int)
    }

    /// Whole seconds since the start of day 0 (leap second excluded).
    pub open spec fn instant_secs(self) -> int {
        self.day_number * 86400 + self.second_of_day()
    }

    /// `self` is the instant `utc` seen through a fixed offset from UTC of
    /// less than a day, as every time zone's offset is: same sub-second
    /// part, and a wall clock less than 24 hours away.
    pub open spec fn local_view_of(self, utc: Stamp) -> bool {
        &&& self.consistent()
        &&& self.nanos == utc.nanos
        &&& -86400 < self.instant_secs() - utc.instant_secs() < 86400
    }
}

/// Leap years of the proleptic Gregorian calendar.
pub open spec fn is_leap(y: int) -> bool {
    (y % 4 == 0 && y % 100 != 0) || y % 400 == 0
}

/// The days of month `m` (1 to 12) of year `y`.
pub open spec fn days_in_month(y: int, m: int) -> int {
    if m == 2 {
        if is_leap(y) { 29 } else { 28 }
    } else if m == 4 || m == 6 || m == 9 || m == 11 {
        30
    } else {
        31
    }
}

/// The days of year `y` before month `m`.
pub open spec fn days_before_month(y: int, m: int) -> int {
    let base: int = if m <= 1 { 0 } else if m == 2 { 31 } else if m == 3 { 59 } else if m == 4 { 90 } else if m
        == 5 { 120 } else if m == 6 { 151 } else if m == 7 { 181 } else if m == 8 { 212 } else if m == 9 {
        243
    } else if m == 10 { 273 } else if m == 11 { 304 } else { 334 };
    base + if m > 2 && is_leap(y) { 1int } else { 0int }
}

/// The day number of a date counted as chrono's `num_days_from_ce` counts:
/// 1 January of year 1 is day 1, in the proleptic Gregorian calendar.
pub open spec fn civil_day(y: int, m: int, d: int) -> int {
    let p = y - 1;
    p * 365 + p / 4 - p / 100 + p / 400 + days_before_month(y, m) + d
}

/// What chrono's `NaiveDateTime::parse_from_str` gives for `text` read
/// with format `fmt`, as calendar fields (`None` when it refuses the text).
pub uninterp spec fn parsed_naive(text: Seq<char>, fmt: Seq<char>) -> Option<Stamp>;

/// The instant chrono's `DateTime::parse_from_rfc3339` reads in `text`,
/// as UTC calendar fields (`None` when it refuses the text).
pub uninterp spec fn rfc3339_utc(text: Seq<char>) -> Option<Stamp>;

/// Whether chrono's `DateTime::parse_from_rfc3339` accepts `text`.
pub open spec fn rfc3339_accepts(text: Seq<char>) -> bool {
    rfc3339_utc(text) is Some
}

/// Reads `text` with chrono's `NaiveDateTime::parse_from_str` and the
/// format `fmt`.
///
/// Trusted: the result is the named `parsed_naive(text, fmt)`, and its
/// fields lie in the ranges chrono's `Datelike`/`Timelike` documentation
/// gives (month 1-12, day 1-31, hour 0-23, minute and second 0-59,
/// nanosecond below 2e9).
#[verifier::external_body]
fn parse_naive(text: &str, fmt: &str) -> (r: Option<Stamp>)
    ensures
        r == parsed_naive(text@, fmt@),
        r matches Some(s) ==> s.wf(),
{
    match chrono::NaiveDateTime::parse_from_str(text, fmt) {
        Ok(d) => Some(fields_of(d)),
        Err(_) => None,
    }
}

/// The current UTC date and time, from chrono's `Utc::now()`.
///
/// Trusted: states that the fields lie in chrono's documented ranges and
/// form a real calendar date with its day number (as `fields_of` gives
/// them); which instant it is depends on the clock and is left unsaid.
/// chrono's `Utc::now` panics when the system clock reads a time before
/// 1970, a state of the machine that no argument can exclude.
#[verifier::external_body]
pub(crate) fn utc_now() -> (r: Stamp)
    ensures
        r.wf(),
        r.consistent(),
{
    fields_of(chrono::Utc::now().naive_utc())
}

/// chrono's date and time without a time zone, carried through opaque.
#[verifier::external_type_specification]
#[verifier::external_body]
pub struct ExNaiveDateTime(chrono::NaiveDateTime);

/// Calendar fields of a chrono date and time, through chrono's
/// `Datelike` and `Timelike` getters.
///
/// Trusted: the fields lie in the ranges chrono documents, the date is a
/// real Gregorian date, and `day_number` is its `num_days_from_ce`, which
/// chrono documents as the days since 1 January of year 1 (day 1) in the
/// proleptic Gregorian calendar.
#[verifier::external_body]
fn fields_of(d: chrono::NaiveDateTime) -> (r: Stamp)
    ensures
        r.wf(),
        r.consistent(),
{
    Stamp {
        year: d.year(),
        month: d.month(),
        day: d.day(),
        hour: d.hour(),
        minute: d.minute(),
        second: d.second(),
        nanos: d.nanosecond(),
        day_number: d.num_days_from_ce(),
    }
}

/// Reads an RFC 3339 timestamp with chrono's `DateTime::parse_from_rfc3339`,
/// and gives its instant both in UTC (`with_timezone(&Utc)`) and in the
/// machine's local time zone (`with_timezone(&Local)`).
///
/// Trusted: `None` exactly when the named `rfc3339_utc(text)` is, and the
/// UTC fields are the named ones. The local fields are the same instant
/// shifted by the machine's offset from UTC, which chrono keeps as a
/// `FixedOffset` of whole seconds strictly between -86400 and 86400; which
/// offset it is depends on the machine's time zone and is left unsaid.
/// chrono's conversion to local time panics when the machine's time-zone
/// data cannot be read, a state of the machine that no argument can
/// exclude.
#[verifier::external_body]
fn parse_rfc3339(text: &str) -> (r: Option<(Stamp, Stamp)>)
    ensures
        match r {
            Some((utc, local)) => rfc3339_utc(text@) == Some(utc) && utc.wf() && utc.consistent()
                && local.wf() && local.local_view_of(utc),
            None => rfc3339_utc(text@) is None,
        },
{
    match chrono::DateTime::parse_from_rfc3339(text) {
        Ok(d) => Some((
            fields_of(d.with_timezone(&chrono::Utc).naive_utc()),
            fields_of(d.with_timezone(&chrono::Local).naive_local()),
        )),
        Err(_) => None,
    }
}

/// An RFC 3339 timestamp in the machine's local time zone; `None` when
/// chrono refuses it.
pub(crate) fn local_stamp(text: &str) -> (r: Option<Stamp>)
    ensures
        r is Some <==> rfc3339_utc(text@) is Some,
        r matches Some(s) ==> s.wf() && s.local_view_of(rfc3339_utc(text@)->0),
{
    match parse_rfc3339(text) {
        Some((_, local)) => Some(local),
        None => None,
    }
}

/// An RFC 3339 timestamp in UTC; `None` when chrono refuses it.
pub(crate) fn utc_stamp(text: &str) -> (r: Option<Stamp>)
    ensures
        r == rfc3339_utc(text@),
        r matches Some(s) ==> s.wf(),
{
    match parse_rfc3339(text) {
        Some((utc, _)) => Some(utc),
        None => None,
    }
}

} // verus!

verus! {

/// The format the app stores note timestamps in, once `T` and `Z` are
/// taken out of the ISO writing.
pub const NAIVE_FORMAT: &'static str = "%Y-%m-%d %H:%M:%S%.f";

/// `iso` with each `T` made a space and each `Z` dropped.
pub open spec fn normalized_iso(iso: Seq<char>) -> Seq<char>
    decreases iso.len(),
{
    if iso.len() == 0 {
        seq![]
    } else {
        let rest = normalized_iso(iso.drop_last());
        let c = iso.last();
        if c == 'T' {
            rest.push(' ')
        } else if c == 'Z' {
            rest
        } else {
            rest.push(c)
        }
    }
}

/// What the app reads from a stored timestamp.
pub open spec fn stored_stamp(iso: Seq<char>) -> Option<Stamp> {
    parsed_naive(normalized_iso(iso), NAIVE_FORMAT@)
}

/// Writes `iso` the way chrono is asked to read it: `T` becomes a space,
/// `Z` is removed.
pub fn normalize_iso(iso: &str) -> (r: String)
    ensures
        r@ == normalized_iso(iso@),
{
    let cs = crate::text::chars_of(iso);
    let mut out = String::new();
    let mut i: usize = 0;
    while i < cs.len()
        invariant
            cs@ == iso@,
            i <= cs@.len(),
            out@ == normalized_iso(cs@.take(i as int)),
        decreases cs@.len() - i,
    {
        let c = cs[i];
        assert(cs@.take(i + 1).drop_last() =~= cs@.take(i as int));
        if c == 'T' {
            push_char(&mut out, ' ');
        } else if c != 'Z' {
            push_char(&mut out, c);
        }
        i += 1;
    }
    assert(cs@.take(cs@.len() as int) =~= cs@);
    out
}

/// Reads a stored note timestamp.
pub fn read_stamp(iso: &str) -> (r: Option<Stamp>)
    ensures
        r == stored_stamp(iso@),
        r matches Some(s) ==> s.wf(),
{
    let text = normalize_iso(iso);
    parse_naive(text.as_str(), NAIVE_FORMAT)
}

/// `a / b` rounded toward zero (`b > 0`).
pub open spec fn trunc_div(a: int, b: int) -> int {
    if a >= 0 {
        a / b
    } else {
        -((-a) / b)
    }
}

/// Nanoseconds from `then` to `now`.
pub open spec fn elapsed_nanos(now: Stamp, then: Stamp) -> int {
    ((now.day_number - then.day_number) * 86400 + (now.second_of_day() - then.second_of_day()))
        * 1_000_000_000 + (now.nanos - then.nanos)
}

/// Whole seconds from `then` to `now`, rounded toward zero, as chrono's
/// `signed_duration_since(..).num_seconds()` counts them between two
/// instants outside leap seconds.
pub open spec fn elapsed_seconds(now: Stamp, then: Stamp) -> int {
    trunc_div(elapsed_nanos(now, then), 1_000_000_000)
}

/// Computes `elapsed_seconds(now, then)`.
pub fn seconds_between(now: &Stamp, then: &Stamp) -> (r: i128)
    requires
        now.wf(),
        then.wf(),
    ensures
        r == elapsed_seconds(*now, *then),
{
    let days: i128 = now.day_number as i128 - then.day_number as i128;
    let sod_now: i128 = now.hour as i128 * 3600 + now.minute as i128 * 60 + now.second as i128;
    let sod_then: i128 = then.hour as i128 * 3600 + then.minute as i128 * 60 + then.second as i128;
    let total: i128 = (days * 86400 + (sod_now - sod_then)) * 1_000_000_000
        + (now.nanos as i128 - then.nanos as i128);
    if total >= 0 {
        total / 1_000_000_000
    } else {
        -((-total) / 1_000_000_000)
    }
}

/// How long ago a note was written, before it is put into words.
#[derive(Clone, Copy, Debug, PartialEq, Eq, Structural)]
pub enum RelativeDate {
    /// The timestamp could not be read: the raw text is shown.
    Unparsed,
    /// Less than a minute ago (or in the future).
    JustNow,
    /// This many whole minutes ago (1 to 59).
    MinutesAgo(u32),
    /// This many whole hours ago (1 to 23).
    HoursAgo(u32),
    /// The calendar day before today, at this time.
    Yesterday { hour: u32, minute: u32 },
    /// Earlier this year.
    DayMonth { day: u32, month: u32 },
    /// An earlier year.
    DayMonthYear { day: u32, month: u32, year: i32 },
}

/// The relative date of a note written at `dt`, seen at `now`.
pub open spec fn relative_date_of(dt: Stamp, now: Stamp) -> RelativeDate {
    let secs = elapsed_seconds(now, dt);
    if secs < 60 {
        RelativeDate::JustNow
    } else if secs < 3600 {
        RelativeDate::MinutesAgo((secs / 60) as u32)
    } else if secs < 86400 {
        RelativeDate::HoursAgo((secs / 3600) as u32)
    } else if dt.day_number == now.day_number - 1 {
        RelativeDate::Yesterday { hour: dt.hour, minute: dt.minute }
    } else if dt.year == now.year {
        RelativeDate::DayMonth { day: dt.day, month: dt.month }
    } else {
        RelativeDate::DayMonthYear { day: dt.day, month: dt.month, year: dt.year }
    }
}

/// The relative date of a stored timestamp `iso`, seen at `now`.
pub open spec fn relative_date_spec(iso: Seq<char>, now: Stamp) -> RelativeDate {
    match stored_stamp(iso) {
        None => RelativeDate::Unparsed,
        Some(dt) => relative_date_of(dt, now),
    }
}

/// How long ago `iso` was, seen at `now`: under a minute, minutes, hours,
/// yesterday with its time, or the day (with the year when it is not the
/// current one).
pub fn relative_date_at(iso: &str, now: &Stamp) -> (r: RelativeDate)
    requires
        now.wf(),
    ensures
        r == relative_date_spec(iso@, *now),
{
    match read_stamp(iso) {
        None => RelativeDate::Unparsed,
        Some(dt) => {
            let secs = seconds_between(now, &dt);
            if secs < 60 {
                RelativeDate::JustNow
            } else if secs < 3600 {
                RelativeDate::MinutesAgo((secs / 60) as u32)
            } else if secs < 86400 {
                RelativeDate::HoursAgo((secs / 3600) as u32)
            } else if dt.day_number as i64 == now.day_number as i64 - 1 {
                RelativeDate::Yesterday { hour: dt.hour, minute: dt.minute }
            } else if dt.year == now.year {
                RelativeDate::DayMonth { day: dt.day, month: dt.month }
            } else {
                RelativeDate::DayMonthYear { day: dt.day, month: dt.month, year: dt.year }
            }
        },
    }
}

/// How long ago `iso` was, seen now (the clock is read with chrono).
pub fn format_relative_date(iso: &str) -> (r: RelativeDate)
    ensures
        exists|now: Stamp| now.wf() && now.consistent() && r == relative_date_spec(iso@, now),
{
    let now = utc_now();
    relative_date_at(iso, &now)
}

} // verus!

verus! {

/// `hour:minute` on 24 hours, both zero-padded (chrono's `%H:%M`).
pub open spec fn clock_24(h: nat, m: nat) -> Seq<char> {
    two_digits(h) + seq![':'] + two_digits(m)
}

/// The hour on a 12-hour dial (12, 1, ..., 11).
pub open spec fn hour_12(h: nat) -> nat {
    if h % 12 == 0 {
        12
    } else {
        h % 12
    }
}

/// `AM` before noon, `PM` from noon.
pub open spec fn am_pm(h: nat) -> Seq<char> {
    if h < 12 {
        seq!['A', 'M']
    } else {
        seq!['P', 'M']
    }
}

/// chrono's `%-I:%M %p`: unpadded 12-hour hour, padded minute, AM/PM.
pub open spec fn clock_12(h: nat, m: nat) -> Seq<char> {
    decimal(hour_12(h)) + seq![':'] + two_digits(m) + seq![' '] + am_pm(h)
}

/// chrono's `%I:%M %p`: the same with the hour zero-padded.
pub open spec fn clock_12_padded(h: nat, m: nat) -> Seq<char> {
    two_digits(hour_12(h)) + seq![':'] + two_digits(m) + seq![' '] + am_pm(h)
}

/// The time of day a note label shows: 24-hour in French, 12-hour otherwise.
pub open spec fn note_time(lang: Seq<char>, h: nat, m: nat) -> Seq<char> {
    if crate::text::is_fr(lang) {
        clock_24(h, m)
    } else {
        clock_12(h, m)
    }
}

/// Writes `note_time(lang, hour, minute)`.
pub fn note_time_text(lang: &str, hour: u32, minute: u32) -> (r: String)
    requires
        hour < 24,
        minute < 60,
    ensures
        r@ == note_time(lang@, hour as nat, minute as nat),
{
    let mut s = String::new();
    if crate::text::lang_is_fr(lang) {
        push_two_digits(&mut s, hour);
        push_char(&mut s, ':');
        push_two_digits(&mut s, minute);
        assert(s@ =~= clock_24(hour as nat, minute as nat));
    } else {
        let h12: u32 = if hour % 12 == 0 { 12 } else { hour % 12 };
        crate::text::push_decimal(&mut s, h12 as u64);
        push_char(&mut s, ':');
        push_two_digits(&mut s, minute);
        push_char(&mut s, ' ');
        if hour < 12 {
            push_char(&mut s, 'A');
        } else {
            push_char(&mut s, 'P');
        }
        push_char(&mut s, 'M');
        assert(s@ =~= clock_12(hour as nat, minute as nat));
    }
    s
}

/// Four digits, zero-padded, for values below 10000; plain decimal above.
pub open spec fn padded4(n: nat) -> Seq<char> {
    if n < 10000 {
        seq![
            crate::text::digit_char(n / 1000),
            crate::text::digit_char((n / 100) % 10),
            crate::text::digit_char((n / 10) % 10),
            crate::text::digit_char(n % 10),
        ]
    } else {
        decimal(n)
    }
}

/// chrono's `%Y`: four digits for years 0 to 9999, signed otherwise.
pub open spec fn year_text(y: int) -> Seq<char> {
    if y < 0 {
        seq!['-'] + padded4((-y) as nat)
    } else if y > 9999 {
        seq!['+'] + padded4(y as nat)
    } else {
        padded4(y as nat)
    }
}

fn push_padded4(s: &mut String, n: u64)
    ensures
        final(s)@ == old(s)@ + padded4(n as nat),
{
    if n < 10000 {
        let ghost start = s@;
        push_two_digits(s, (n / 100) as u32);
        push_two_digits(s, (n % 100) as u32);
        assert(((n / 100) as nat) / 10 == (n as nat) / 1000);
        assert(((n / 100) as nat) % 10 == ((n as nat) / 100) % 10);
        assert(((n % 100) as nat) / 10 == ((n as nat) / 10) % 10);
        assert(((n % 100) as nat) % 10 == (n as nat) % 10);
        assert(s@ =~= start + padded4(n as nat));
    } else {
        crate::text::push_decimal(s, n);
    }
}

/// Appends `year_text(y)`.
pub fn push_year(s: &mut String, y: i32)
    ensures
        final(s)@ == old(s)@ + year_text(y as int),
{
    let ghost start = s@;
    if y < 0 {
        push_char(s, '-');
        let a: u64 = (-(y as i64)) as u64;
        push_padded4(s, a);
        assert(s@ =~= start + year_text(y as int));
    } else if y > 9999 {
        push_char(s, '+');
        push_padded4(s, y as u64);
        assert(s@ =~= start + year_text(y as int));
    } else {
        push_padded4(s, y as u64);
    }
}

} // verus!

verus! {

/// A note's creation date in short absolute form, before it is put into words.
#[derive(Clone, Copy, Debug, PartialEq, Eq, Structural)]
pub enum AbsoluteDate {
    /// The timestamp could not be read: the raw text is shown.
    Unparsed,
    /// This year: day, month and time of day.
    ThisYear { day: u32, month: u32, hour: u32, minute: u32 },
    /// Another year: day, month and year.
    OtherYear { day: u32, month: u32, year: i32 },
}

/// The short absolute date of a stored timestamp, seen in year `now_year`.
pub open spec fn absolute_date_spec(iso: Seq<char>, now_year: int) -> AbsoluteDate {
    match stored_stamp(iso) {
        None => AbsoluteDate::Unparsed,
        Some(d) => if d.year == now_year {
            AbsoluteDate::ThisYear { day: d.day, month: d.month, hour: d.hour, minute: d.minute }
        } else {
            AbsoluteDate::OtherYear { day: d.day, month: d.month, year: d.year }
        },
    }
}

/// The short absolute date of `iso` seen at `now`: with the time when it
/// is this year, with the year otherwise.
pub fn absolute_date_at(iso: &str, now: &Stamp) -> (r: AbsoluteDate)
    ensures
        r == absolute_date_spec(iso@, now.year as int),
{
    match read_stamp(iso) {
        None => AbsoluteDate::Unparsed,
        Some(d) => if d.year == now.year {
            AbsoluteDate::ThisYear { day: d.day, month: d.month, hour: d.hour, minute: d.minute }
        } else {
            AbsoluteDate::OtherYear { day: d.day, month: d.month, year: d.year }
        },
    }
}

/// The short absolute date of `iso`, seen now.
pub fn format_absolute_short(iso: &str) -> (r: AbsoluteDate)
    ensures
        exists|now: Stamp| now.wf() && now.consistent() && r == absolute_date_spec(iso@, now.year as int),
{
    let now = utc_now();
    absolute_date_at(iso, &now)
}

/// The heading a note falls under in the feed.
#[derive(Clone, Copy, Debug, PartialEq, Eq, Structural)]
pub enum FeedGroup {
    /// The timestamp could not be read: its first ten bytes are shown.
    Unparsed,
    Today,
    Yesterday,
    /// Two to six days ago.
    ThisWeek,
    /// Earlier this year (or later than today): the month.
    Month(u32),
    /// Another year: month and year.
    MonthYear(u32, i32),
}

/// The feed heading of a stored timestamp, seen on the day `today`.
pub open spec fn feed_group_spec(iso: Seq<char>, today: Stamp) -> FeedGroup {
    match stored_stamp(iso) {
        None => FeedGroup::Unparsed,
        Some(d) => {
            let days = today.day_number - d.day_number;
            if days == 0 {
                FeedGroup::Today
            } else if days == 1 {
                FeedGroup::Yesterday
            } else if 2 <= days <= 6 {
                FeedGroup::ThisWeek
            } else if d.year == today.year {
                FeedGroup::Month(d.month)
            } else {
                FeedGroup::MonthYear(d.month, d.year)
            }
        },
    }
}

/// The feed heading of `iso` seen on `today`: today, yesterday, this week,
/// the month this year, or the month and year.
pub fn feed_group_at(iso: &str, today: &Stamp) -> (r: FeedGroup)
    ensures
        r == feed_group_spec(iso@, *today),
{
    match read_stamp(iso) {
        None => FeedGroup::Unparsed,
        Some(d) => {
            let days: i64 = today.day_number as i64 - d.day_number as i64;
            if days == 0 {
                FeedGroup::Today
            } else if days == 1 {
                FeedGroup::Yesterday
            } else if 2 <= days && days <= 6 {
                FeedGroup::ThisWeek
            } else if d.year == today.year {
                FeedGroup::Month(d.month)
            } else {
                FeedGroup::MonthYear(d.month, d.year)
            }
        },
    }
}

/// The feed heading of `iso`, seen today.
pub fn feed_group_label(iso: &str) -> (r: FeedGroup)
    ensures
        exists|today: Stamp| today.wf() && today.consistent() && r == feed_group_spec(iso@, today),
{
    let today = utc_now();
    feed_group_at(iso, &today)
}

/// The raw text shown for an unreadable timestamp in the feed: its first
/// ten bytes when they end on a character boundary, all of it otherwise.
pub fn raw_date_prefix(iso: &str) -> (r: &str)
    ensures
        vstd::utf8::is_char_boundary(iso.spec_bytes(), 10) ==> r.spec_bytes() =~= iso.spec_bytes().subrange(0, 10),
        !vstd::utf8::is_char_boundary(iso.spec_bytes(), 10) ==> r@ == iso@,
{
    match crate::text::byte_prefix(iso, 10) {
        Some(p) => p,
        None => iso,
    }
}

} // verus!

verus! {

/// chrono's `%d/%m/%Y`.
pub open spec fn dmy_text(s: Stamp) -> Seq<char> {
    two_digits(s.day as nat) + seq!['/'] + two_digits(s.month as nat) + seq!['/'] + year_text(
        s.year as int,
    )
}

/// chrono's `%m/%d/%Y`.
pub open spec fn mdy_text(s: Stamp) -> Seq<char> {
    two_digits(s.month as nat) + seq!['/'] + two_digits(s.day as nat) + seq!['/'] + year_text(
        s.year as int,
    )
}

/// chrono's `%d/%m %H:%M`.
pub open spec fn dm_clock_text(s: Stamp) -> Seq<char> {
    two_digits(s.day as nat) + seq!['/'] + two_digits(s.month as nat) + seq![' '] + clock_24(
        s.hour as nat,
        s.minute as nat,
    )
}

/// The expiry of account access: `%d/%m/%Y %H:%M` in French,
/// `%m/%d/%Y %I:%M %p` otherwise.
pub open spec fn access_expiry_text(lang: Seq<char>, s: Stamp) -> Seq<char> {
    if crate::text::is_fr(lang) {
        dmy_text(s) + seq![' '] + clock_24(s.hour as nat, s.minute as nat)
    } else {
        mdy_text(s) + seq![' '] + clock_12_padded(s.hour as nat, s.minute as nat)
    }
}

/// The first ten characters of `t` (all of it when shorter).
pub open spec fn first_ten(t: Seq<char>) -> Seq<char> {
    if t.len() <= 10 {
        t
    } else {
        t.take(10)
    }
}

/// Writes `dmy_text(s)`.
pub fn day_month_year_text(s: &Stamp) -> (r: String)
    requires
        s.wf(),
    ensures
        r@ == dmy_text(*s),
{
    let mut out = String::new();
    push_two_digits(&mut out, s.day);
    push_char(&mut out, '/');
    push_two_digits(&mut out, s.month);
    push_char(&mut out, '/');
    push_year(&mut out, s.year);
    assert(out@ =~= dmy_text(*s));
    out
}

/// Writes `mdy_text(s)`.
pub fn month_day_year_text(s: &Stamp) -> (r: String)
    requires
        s.wf(),
    ensures
        r@ == mdy_text(*s),
{
    let mut out = String::new();
    push_two_digits(&mut out, s.month);
    push_char(&mut out, '/');
    push_two_digits(&mut out, s.day);
    push_char(&mut out, '/');
    push_year(&mut out, s.year);
    assert(out@ =~= mdy_text(*s));
    out
}

fn push_clock_24(out: &mut String, h: u32, m: u32)
    requires
        h < 24,
        m < 60,
    ensures
        final(out)@ == old(out)@ + clock_24(h as nat, m as nat),
{
    let ghost start = out@;
    push_two_digits(out, h);
    push_char(out, ':');
    push_two_digits(out, m);
    assert(out@ =~= start + clock_24(h as nat, m as nat));
}

/// Writes `dm_clock_text(s)`.
pub fn day_month_clock_text(s: &Stamp) -> (r: String)
    requires
        s.wf(),
    ensures
        r@ == dm_clock_text(*s),
{
    let mut out = String::new();
    push_two_digits(&mut out, s.day);
    push_char(&mut out, '/');
    push_two_digits(&mut out, s.month);
    push_char(&mut out, ' ');
    push_clock_24(&mut out, s.hour, s.minute);
    assert(out@ =~= dm_clock_text(*s));
    out
}

/// Writes `clock_24` of the stamp's time.
pub fn clock_text(s: &Stamp) -> (r: String)
    requires
        s.wf(),
    ensures
        r@ == clock_24(s.hour as nat, s.minute as nat),
{
    let mut out = String::new();
    push_clock_24(&mut out, s.hour, s.minute);
    out
}

/// Writes `access_expiry_text(lang, s)`.
pub fn access_expiry_text_of(lang: &str, s: &Stamp) -> (r: String)
    requires
        s.wf(),
    ensures
        r@ == access_expiry_text(lang@, *s),
{
    if crate::text::lang_is_fr(lang) {
        let mut out = day_month_year_text(s);
        push_char(&mut out, ' ');
        push_clock_24(&mut out, s.hour, s.minute);
        assert(out@ =~= access_expiry_text(lang@, *s));
        out
    } else {
        let mut out = month_day_year_text(s);
        let ghost start = out@;
        push_char(&mut out, ' ');
        let h12: u32 = if s.hour % 12 == 0 { 12 } else { s.hour % 12 };
        push_two_digits(&mut out, h12);
        push_char(&mut out, ':');
        push_two_digits(&mut out, s.minute);
        push_char(&mut out, ' ');
        if s.hour < 12 {
            push_char(&mut out, 'A');
        } else {
            push_char(&mut out, 'P');
        }
        push_char(&mut out, 'M');
        assert(out@ =~= access_expiry_text(lang@, *s));
        out
    }
}

/// When a published share expires, as the share card shows it: the local
/// `%d/%m/%Y`, or the first ten characters of `iso` when it is not RFC 3339.
pub fn expiry_label(iso: &str) -> (r: String)
    ensures
        !rfc3339_accepts(iso@) ==> r@ == first_ten(iso@),
        rfc3339_accepts(iso@) ==> exists|s: Stamp|
            s.wf() && s.local_view_of(rfc3339_utc(iso@)->0) && r@ == dmy_text(s),
{
    match local_stamp(iso) {
        Some(s) => day_month_year_text(&s),
        None => crate::text::char_prefix(iso, 10),
    }
}

/// When an account link code expires: the local `%H:%M`, or `iso` itself.
pub fn link_expiry_label(iso: &str) -> (r: String)
    ensures
        !rfc3339_accepts(iso@) ==> r@ == iso@,
        rfc3339_accepts(iso@) ==> exists|s: Stamp|
            s.wf() && s.local_view_of(rfc3339_utc(iso@)->0) && r@ == clock_24(s.hour as nat, s.minute as nat),
{
    match local_stamp(iso) {
        Some(s) => clock_text(&s),
        None => String::from_str(iso),
    }
}

/// When a member device was last seen: the local `%d/%m %H:%M`, or the
/// first ten characters of `iso`.
pub fn seen_label(iso: &str) -> (r: String)
    ensures
        !rfc3339_accepts(iso@) ==> r@ == first_ten(iso@),
        rfc3339_accepts(iso@) ==> exists|s: Stamp|
            s.wf() && s.local_view_of(rfc3339_utc(iso@)->0) && r@ == dm_clock_text(s),
{
    match local_stamp(iso) {
        Some(s) => day_month_clock_text(&s),
        None => crate::text::char_prefix(iso, 10),
    }
}

/// When premium access or a link code expires, on the onboarding card:
/// `access_expiry_text` of the local time, or `iso` itself.
pub fn access_expiry_label(iso: &str, lang: &str) -> (r: String)
    ensures
        !rfc3339_accepts(iso@) ==> r@ == iso@,
        rfc3339_accepts(iso@) ==> exists|s: Stamp|
            s.wf() && s.local_view_of(rfc3339_utc(iso@)->0) && r@ == access_expiry_text(lang@, s),
{
    match local_stamp(iso) {
        Some(s) => access_expiry_text_of(lang, &s),
        None => String::from_str(iso),
    }
}

} // verus!

verus! {

/// What each relative date means, for every stored timestamp and every
/// clock reading: "yesterday" is only ever the calendar day just before
/// today (and shows that note's time); a note a day or more old from any
/// other day is shown by its day and month, with the year only when it is
/// not this year's; under a day, the whole minutes or hours elapsed.
pub proof fn lemma_relative_date_meaning(iso: Seq<char>, now: Stamp)
    ensures
        relative_date_spec(iso, now) is Unparsed <==> stored_stamp(iso) is None,
        stored_stamp(iso) matches Some(dt) ==> {
            let secs = elapsed_seconds(now, dt);
            let r = relative_date_spec(iso, now);
            &&& (r is JustNow <==> secs < 60)
            &&& (r matches RelativeDate::MinutesAgo(m) ==> 60 <= secs < 3600 && m == secs / 60)
            &&& (r matches RelativeDate::HoursAgo(h) ==> 3600 <= secs < 86400 && h == secs / 3600)
            &&& (r matches RelativeDate::Yesterday { hour, minute } ==> dt.day_number == now.day_number - 1
                && secs >= 86400 && hour == dt.hour && minute == dt.minute)
            &&& (secs >= 86400 && dt.day_number == now.day_number - 1 ==> r is Yesterday)
            &&& (secs >= 86400 && dt.day_number != now.day_number - 1 && dt.year == now.year
                ==> r == RelativeDate::DayMonth { day: dt.day, month: dt.month })
            &&& (secs >= 86400 && dt.day_number != now.day_number - 1 && dt.year != now.year
                ==> r == RelativeDate::DayMonthYear { day: dt.day, month: dt.month, year: dt.year })
        },
        stored_stamp(iso) matches Some(dt) && now.day_number - dt.day_number >= 2
            && elapsed_seconds(now, dt) >= 86400 ==> !(relative_date_spec(iso, now) is Yesterday),
{
}

} // verus!
