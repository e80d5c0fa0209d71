use flight_search::date::{
    Date, add_days, day_suffix, format_ymd, friendly_date, month_name, now_plus_30d, parse_ymd,
    today_local, today_utc,
};
use flight_search::text::{parse_hundredths, parse_u64_str, str_eq, u64_to_string};
use flight_search::timestamp::{duration_minutes, duration_text, instant_seconds};

#[test]
fn test_u64_rendering() {
    assert_eq!(u64_to_string(0), "0");
    assert_eq!(u64_to_string(7), "7");
    assert_eq!(u64_to_string(10), "10");
    assert_eq!(u64_to_string(987654), "987654");
}

#[test]
fn test_parse_u64() {
    assert_eq!(parse_u64_str("45"), Some(45));
    assert_eq!(parse_u64_str("0"), Some(0));
    assert_eq!(parse_u64_str(""), None);
    assert_eq!(parse_u64_str("45.0"), None);
    assert_eq!(parse_u64_str("-3"), None);
    assert_eq!(parse_u64_str("999999999999999"), Some(999_999_999_999_999));
    assert_eq!(parse_u64_str("1000000000000000"), None);
}

#[test]
fn test_parse_hundredths() {
    assert_eq!(parse_hundredths("245.99"), Some(24599));
    assert_eq!(parse_hundredths("12"), Some(1200));
    assert_eq!(parse_hundredths("0.005"), Some(1));
    assert_eq!(parse_hundredths("0.004999"), Some(0));
    assert_eq!(parse_hundredths("-1.2"), Some(-120));
    assert_eq!(parse_hundredths("1e5"), None);
    assert_eq!(parse_hundredths(""), None);
    assert_eq!(parse_hundredths("."), None);
    assert_eq!(parse_hundredths("3."), None);
}

#[test]
fn test_str_eq() {
    assert!(str_eq("abc", "abc"));
    assert!(!str_eq("abc", "abd"));
    assert!(!str_eq("abc", "ab"));
    assert!(str_eq("", ""));
}

#[test]
fn test_date_parsing_and_rendering() {
    let d = parse_ymd("2025-02-14").unwrap();
    assert_eq!((d.year, d.month, d.day), (2025, 2, 14));
    assert_eq!(format_ymd(d), "2025-02-14");
    assert_eq!(parse_ymd("2025-2-14"), None);
    assert_eq!(parse_ymd("2025-02-30"), None);
    assert_eq!(parse_ymd("2025-13-01"), None);
    // leap years
    assert!(parse_ymd("2024-02-29").is_some());
    assert_eq!(parse_ymd("2025-02-29"), None);
    assert!(parse_ymd("2000-02-29").is_some());
    assert_eq!(parse_ymd("1900-02-29"), None);
}

#[test]
fn test_add_days_rolls_over() {
    let d = Date { year: 2024, month: 12, day: 27 };
    let r = add_days(d, 7);
    assert_eq!((r.year, r.month, r.day), (2025, 1, 3));
    let d = Date { year: 2024, month: 2, day: 27 };
    let r = add_days(d, 3);
    assert_eq!((r.year, r.month, r.day), (2024, 3, 1));
}

#[test]
fn test_day_suffix() {
    assert_eq!(day_suffix(1), "st");
    assert_eq!(day_suffix(2), "nd");
    assert_eq!(day_suffix(3), "rd");
    assert_eq!(day_suffix(4), "th");
    assert_eq!(day_suffix(11), "th");
    assert_eq!(day_suffix(12), "th");
    assert_eq!(day_suffix(13), "th");
    assert_eq!(day_suffix(21), "st");
    assert_eq!(day_suffix(22), "nd");
    assert_eq!(day_suffix(23), "rd");
    assert_eq!(day_suffix(30), "th");
}

#[test]
fn test_friendly_date_wording() {
    assert_eq!(month_name(5), "May");
    let d = Date { year: 2025, month: 5, day: 21 };
    assert_eq!(friendly_date(d), "May 21st 2025");
    let d = Date { year: 2026, month: 11, day: 13 };
    assert_eq!(friendly_date(d), "November 13th 2026");
}

#[test]
fn test_clock_readings_are_tamed() {
    let t = today_utc();
    assert!((1..=9999).contains(&t.year));
    assert!((1..=12).contains(&t.month));
    assert!(t.day >= 1);
    let l = today_local();
    assert!((1..=12).contains(&l.month));
    let phrase = now_plus_30d();
    assert_eq!(phrase.split(' ').count(), 3);
}

#[test]
fn test_instants_and_durations() {
    // P-style duration: the documented example.
    assert_eq!(
        duration_minutes("2025-05-25T10:00:00Z", "2025-05-25T13:45:00Z"),
        Some(225)
    );
    assert_eq!(duration_text(225), "3 hours 45 minutes");
    // crossing a month boundary
    assert_eq!(
        duration_minutes("2025-05-31T23:00:00Z", "2025-06-01T01:30:00Z"),
        Some(150)
    );
    // zone offsets shift the instant
    assert_eq!(
        duration_minutes("2025-05-25T10:00:00+05:30", "2025-05-25T10:00:00Z"),
        Some(330)
    );
    // an arrival before the departure yields zero
    assert_eq!(
        duration_minutes("2025-05-25T13:00:00Z", "2025-05-25T10:00:00Z"),
        Some(0)
    );
    // seconds-free and fractional forms are accepted
    assert!(instant_seconds("2025-05-25T10:00").is_some());
    assert!(instant_seconds("2025-05-25T10:00:00.123Z").is_some());
    // malformed forms are not
    assert!(instant_seconds("2025-05-25").is_none());
    assert!(instant_seconds("2025-02-30T10:00:00Z").is_none());
    assert!(instant_seconds("2025-05-25T10:00:00.Z").is_none());
}
