use flowflow::dates::{
    absolute_date_at, access_expiry_label, access_expiry_text_of, day_month_clock_text,
    day_month_year_text, expiry_label, feed_group_at, link_expiry_label, month_day_year_text,
    normalize_iso, note_time_text, raw_date_prefix, read_stamp, relative_date_at, seconds_between,
    seen_label, AbsoluteDate, FeedGroup, RelativeDate, Stamp,
};

fn stamp(year: i32, month: u32, day: u32, hour: u32, minute: u32, second: u32, day_number: i32) -> Stamp {
    Stamp { year, month, day, hour, minute, second, nanos: 0, day_number }
}

fn now() -> Stamp {
    stamp(2024, 5, 10, 12, 0, 0, 739016)
}

#[test]
fn normalize_iso_drops_t_and_z() {
    assert_eq!(normalize_iso("2024-05-10T10:00:00Z"), "2024-05-10 10:00:00");
    assert_eq!(normalize_iso("2024-05-10 10:00:00"), "2024-05-10 10:00:00");
}

#[test]
fn read_stamp_reads_stored_timestamps() {
    let s = read_stamp("2024-05-10T10:30:15Z").unwrap();
    assert_eq!((s.year, s.month, s.day, s.hour, s.minute, s.second), (2024, 5, 10, 10, 30, 15));
    assert_eq!(s.day_number, 739016);
    let f = read_stamp("2024-05-10 10:30:15.250").unwrap();
    assert_eq!(f.nanos, 250_000_000);
    assert!(read_stamp("not a date").is_none());
}

#[test]
fn seconds_between_rounds_toward_zero() {
    let a = stamp(2024, 5, 10, 12, 0, 0, 739016);
    let b = stamp(2024, 5, 10, 11, 58, 30, 739016);
    assert_eq!(seconds_between(&a, &b), 90);
    assert_eq!(seconds_between(&b, &a), -90);
    let mut c = b;
    c.nanos = 500_000_000;
    assert_eq!(seconds_between(&a, &c), 89);
    assert_eq!(seconds_between(&c, &a), -89);
}

#[test]
fn relative_date_steps() {
    let n = now();
    assert_eq!(relative_date_at("garbage", &n), RelativeDate::Unparsed);
    assert_eq!(relative_date_at("2024-05-10T11:59:30Z", &n), RelativeDate::JustNow);
    assert_eq!(relative_date_at("2024-05-10T13:00:00Z", &n), RelativeDate::JustNow);
    assert_eq!(relative_date_at("2024-05-10T11:55:00Z", &n), RelativeDate::MinutesAgo(5));
    assert_eq!(relative_date_at("2024-05-10T09:00:00Z", &n), RelativeDate::HoursAgo(3));
    assert_eq!(
        relative_date_at("2024-05-09T08:15:00Z", &n),
        RelativeDate::Yesterday { hour: 8, minute: 15 }
    );
    assert_eq!(relative_date_at("2024-03-01T08:15:00Z", &n), RelativeDate::DayMonth { day: 1, month: 3 });
    assert_eq!(
        relative_date_at("2023-12-31T08:15:00Z", &n),
        RelativeDate::DayMonthYear { day: 31, month: 12, year: 2023 }
    );
}

#[test]
fn absolute_date_with_time_this_year() {
    let n = now();
    assert_eq!(
        absolute_date_at("2024-03-01T08:15:00Z", &n),
        AbsoluteDate::ThisYear { day: 1, month: 3, hour: 8, minute: 15 }
    );
    assert_eq!(
        absolute_date_at("2023-12-31T08:15:00Z", &n),
        AbsoluteDate::OtherYear { day: 31, month: 12, year: 2023 }
    );
    assert_eq!(absolute_date_at("x", &n), AbsoluteDate::Unparsed);
}

#[test]
fn feed_groups_by_day() {
    let n = now();
    assert_eq!(feed_group_at("2024-05-10T00:01:00Z", &n), FeedGroup::Today);
    assert_eq!(feed_group_at("2024-05-09T23:59:00Z", &n), FeedGroup::Yesterday);
    assert_eq!(feed_group_at("2024-05-05T10:00:00Z", &n), FeedGroup::ThisWeek);
    assert_eq!(feed_group_at("2024-03-01T10:00:00Z", &n), FeedGroup::Month(3));
    assert_eq!(feed_group_at("2023-12-31T10:00:00Z", &n), FeedGroup::MonthYear(12, 2023));
    assert_eq!(feed_group_at("?", &n), FeedGroup::Unparsed);
}

#[test]
fn raw_prefix_takes_ten_bytes() {
    assert_eq!(raw_date_prefix("2024-05-10T10:00:00Z"), "2024-05-10");
    assert_eq!(raw_date_prefix("short"), "short");
}

#[test]
fn note_time_in_both_languages() {
    assert_eq!(note_time_text("fr", 14, 5), "14:05");
    assert_eq!(note_time_text("en", 14, 5), "2:05 PM");
    assert_eq!(note_time_text("en", 0, 7), "12:07 AM");
    assert_eq!(note_time_text("en", 12, 0), "12:00 PM");
}

#[test]
fn calendar_texts() {
    let s = stamp(2024, 5, 9, 8, 5, 0, 739015);
    assert_eq!(day_month_year_text(&s), "09/05/2024");
    assert_eq!(month_day_year_text(&s), "05/09/2024");
    assert_eq!(day_month_clock_text(&s), "09/05 08:05");
    assert_eq!(access_expiry_text_of("fr", &s), "09/05/2024 08:05");
    assert_eq!(access_expiry_text_of("en", &s), "05/09/2024 08:05 AM");
    let late = stamp(2024, 5, 9, 20, 30, 0, 739015);
    assert_eq!(access_expiry_text_of("en", &late), "05/09/2024 08:30 PM");
}

#[test]
fn labels_fall_back_on_the_raw_text() {
    assert_eq!(expiry_label("not-a-timestamp-at-all"), "not-a-time");
    assert_eq!(link_expiry_label("soon"), "soon");
    assert_eq!(seen_label("yesterday evening"), "yesterday ");
    assert_eq!(access_expiry_label("later", "fr"), "later");
}

#[test]
fn labels_of_readable_stamps_have_their_shape() {
    let e = expiry_label("2024-05-09T08:05:00+00:00");
    assert_eq!(e.len(), 10);
    assert_eq!(&e[2..3], "/");
    let l = link_expiry_label("2024-05-09T08:05:00Z");
    assert_eq!(l.len(), 5);
    assert_eq!(&l[2..3], ":");
    let s = seen_label("2024-05-09T08:05:00Z");
    assert_eq!(s.len(), 11);
    assert_eq!(&s[2..3], "/");
}

#[test]
fn local_labels_stay_within_a_day_of_the_instant() {
    let e = expiry_label("2024-05-09T12:00:00Z");
    assert!(["08/05/2024", "09/05/2024", "10/05/2024"].contains(&e.as_str()));
    let s = seen_label("2024-05-09T12:30:00Z");
    assert!(s.starts_with("08/05 ") || s.starts_with("09/05 ") || s.starts_with("10/05 "));
    assert!(s.ends_with(":30") || s.ends_with(":00") || s.ends_with(":15") || s.ends_with(":45"));
    let a = access_expiry_label("2024-05-09T12:00:00Z", "fr");
    assert!(a.starts_with("08/05/2024 ") || a.starts_with("09/05/2024 ") || a.starts_with("10/05/2024 "));
}
