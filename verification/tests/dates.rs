//! The `YYYY-MM-DD` date checker: shape, calendar validity, leap years,
//! and the render/parse round trip.

use jobtrackr::date::format_date;
use jobtrackr::date::parse_date;
use jobtrackr::date::DateYmd;

#[test]
fn well_formed_dates_parse() {
    assert_eq!(
        parse_date("2025-10-26"),
        Some(DateYmd { year: 2025, month: 10, day: 26 })
    );
    assert_eq!(
        parse_date("0001-01-01"),
        Some(DateYmd { year: 1, month: 1, day: 1 })
    );
    assert_eq!(
        parse_date("9999-12-31"),
        Some(DateYmd { year: 9999, month: 12, day: 31 })
    );
}

#[test]
fn leap_years_follow_the_gregorian_rule() {
    assert!(parse_date("2024-02-29").is_some());
    assert!(parse_date("2023-02-29").is_none());
    assert!(parse_date("2000-02-29").is_some());
    assert!(parse_date("1900-02-29").is_none());
    assert!(parse_date("2024-02-30").is_none());
}

#[test]
fn impossible_days_and_months_are_rejected() {
    assert!(parse_date("2025-04-31").is_none());
    assert!(parse_date("2025-06-31").is_none());
    assert!(parse_date("2025-13-01").is_none());
    assert!(parse_date("2025-00-10").is_none());
    assert!(parse_date("2025-01-00").is_none());
    assert!(parse_date("2025-01-32").is_none());
}

#[test]
fn malformed_strings_are_rejected() {
    assert!(parse_date("").is_none());
    assert!(parse_date("2025-1-01").is_none());
    assert!(parse_date("20251001").is_none());
    assert!(parse_date("2025/10/01").is_none());
    assert!(parse_date("abcd-ef-gh").is_none());
    assert!(parse_date("2025-10-26 ").is_none());
    assert!(parse_date("-025-10-26").is_none());
}

#[test]
fn formatting_pads_and_round_trips() {
    let d = DateYmd { year: 7, month: 1, day: 2 };
    assert_eq!(format_date(d), "0007-01-02");
    assert_eq!(parse_date("0007-01-02"), Some(d));
    let d = DateYmd { year: 2025, month: 10, day: 26 };
    assert_eq!(format_date(d), "2025-10-26");
    assert_eq!(parse_date(&format_date(d)), Some(d));
}
