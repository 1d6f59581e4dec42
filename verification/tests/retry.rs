use fcm::{HttpDate, RetryAfter};

#[test]
fn seconds_zero() {
    assert_eq!(RetryAfter::from_str("0"), Some(RetryAfter::Seconds(0)));
}

#[test]
fn seconds_plain() {
    assert_eq!(RetryAfter::from_str("120"), Some(RetryAfter::Seconds(120)));
}

#[test]
fn seconds_leading_zeros() {
    assert_eq!(RetryAfter::from_str("007"), Some(RetryAfter::Seconds(7)));
}

#[test]
fn seconds_largest() {
    assert_eq!(
        RetryAfter::from_str("18446744073709551615"),
        Some(RetryAfter::Seconds(u64::MAX))
    );
}

#[test]
fn seconds_too_large() {
    assert_eq!(RetryAfter::from_str("18446744073709551616"), None);
}

#[test]
fn seconds_trailing_letter() {
    assert_eq!(RetryAfter::from_str("12a"), None);
}

#[test]
fn seconds_negative() {
    assert_eq!(RetryAfter::from_str("-5"), None);
}

#[test]
fn empty_header() {
    assert_eq!(RetryAfter::from_str(""), None);
}

#[test]
fn garbage_header() {
    assert_eq!(RetryAfter::from_str("garbage"), None);
}

#[test]
fn http_date() {
    assert_eq!(
        RetryAfter::from_str("Sun, 06 Nov 1994 08:49:37 GMT"),
        Some(RetryAfter::DateTime(HttpDate {
            day: 6,
            month: 11,
            year: 1994,
            hour: 8,
            minute: 49,
            second: 37,
        }))
    );
}

#[test]
fn http_date_leap_day() {
    assert_eq!(
        RetryAfter::from_str("Mon, 29 Feb 2016 12:00:00 GMT"),
        Some(RetryAfter::DateTime(HttpDate {
            day: 29,
            month: 2,
            year: 2016,
            hour: 12,
            minute: 0,
            second: 0,
        }))
    );
}

#[test]
fn http_date_leap_day_in_common_year() {
    assert_eq!(RetryAfter::from_str("Wed, 29 Feb 2017 12:00:00 GMT"), None);
}

#[test]
fn http_date_impossible_day() {
    assert_eq!(RetryAfter::from_str("Tue, 30 Feb 2016 12:00:00 GMT"), None);
}

#[test]
fn http_date_wrong_zone() {
    assert_eq!(RetryAfter::from_str("Sun, 06 Nov 1994 08:49:37 UTC"), None);
}

#[test]
fn http_date_lowercase_day() {
    assert_eq!(RetryAfter::from_str("sun, 06 Nov 1994 08:49:37 GMT"), None);
}

#[test]
fn http_date_hour_out_of_range() {
    assert_eq!(RetryAfter::from_str("Sun, 06 Nov 1994 24:00:00 GMT"), None);
}

#[test]
fn http_date_day_zero() {
    assert_eq!(RetryAfter::from_str("Sun, 00 Nov 1994 08:49:37 GMT"), None);
}
