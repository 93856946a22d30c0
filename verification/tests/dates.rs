//! Calendar arithmetic and due-date classification.

use pharmacy_core::date::{days_in_month, is_leap_year, next_day, parse_date, plus_days};
use pharmacy_core::schedule::classify;
use pharmacy_core::{Date, DueStatus};

fn d(year: u32, month: u32, day: u32) -> Date {
    Date { year, month, day }
}

#[test]
fn ten_day_supply_lands_ten_days_later() {
    assert_eq!(plus_days(d(2023, 11, 1), 10), d(2023, 11, 11));
}

#[test]
fn addition_carries_across_a_month_end() {
    assert_eq!(plus_days(d(2023, 1, 25), 10), d(2023, 2, 4));
    assert_eq!(next_day(d(2023, 4, 30)), d(2023, 5, 1));
}

#[test]
fn addition_carries_across_a_year_end() {
    assert_eq!(next_day(d(2023, 12, 31)), d(2024, 1, 1));
    assert_eq!(plus_days(d(2023, 12, 30), 3), d(2024, 1, 2));
}

#[test]
fn february_knows_leap_years() {
    assert!(is_leap_year(2024));
    assert!(!is_leap_year(2023));
    assert!(!is_leap_year(1900));
    assert!(is_leap_year(2000));
    assert_eq!(days_in_month(2024, 2), 29);
    assert_eq!(days_in_month(2023, 2), 28);
    assert_eq!(next_day(d(2024, 2, 28)), d(2024, 2, 29));
    assert_eq!(next_day(d(2023, 2, 28)), d(2023, 3, 1));
    assert_eq!(next_day(d(2024, 2, 29)), d(2024, 3, 1));
}

#[test]
fn zero_days_is_the_same_date() {
    assert_eq!(plus_days(d(2023, 6, 15), 0), d(2023, 6, 15));
}

#[test]
fn date_order_is_chronological() {
    assert!(d(2023, 10, 31).lt(&d(2023, 11, 1)));
    assert!(d(2023, 11, 1).le(&d(2024, 1, 1)));
    assert!(d(2023, 11, 11).le(&d(2023, 11, 11)));
    assert!(!d(2023, 11, 12).le(&d(2023, 11, 11)));
}

#[test]
fn refill_on_the_reference_date_is_due_today_never_due_soon() {
    let status = classify(d(2023, 11, 11), d(2023, 11, 11));
    assert_eq!(status, DueStatus::DueToday);
    assert_ne!(status, DueStatus::DueSoon);
}

#[test]
fn classification_is_mutually_exclusive_at_the_horizon() {
    let now = d(2023, 11, 11);
    assert_eq!(classify(d(2023, 11, 10), now), DueStatus::DueToday);
    assert_eq!(classify(d(2023, 11, 12), now), DueStatus::DueSoon);
    assert_eq!(classify(d(2023, 11, 18), now), DueStatus::DueSoon);
    assert_eq!(classify(d(2023, 11, 19), now), DueStatus::NotDue);
}

#[test]
fn date_text_parses_exactly_the_calendar_shape() {
    assert_eq!(parse_date("2023-11-01"), Some(d(2023, 11, 1)));
    assert_eq!(parse_date("2024-02-29"), Some(d(2024, 2, 29)));
    assert_eq!(parse_date("2023-02-29"), None); // not a leap year
    assert_eq!(parse_date("2023-13-01"), None); // no such month
    assert_eq!(parse_date("2023-00-10"), None);
    assert_eq!(parse_date("2023-1-01"), None); // short form refused
    assert_eq!(parse_date("2023/11/01"), None);
    assert_eq!(parse_date("20x3-11-01"), None);
    assert_eq!(parse_date(""), None);
}
