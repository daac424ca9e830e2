use chrono::{DateTime, Utc};
use feed_fetcher::dates::{date_parse_error, parse_date, UtcInstant};

#[test]
fn test_another() {
    let date_str = "Wed, 31 May 2023";
    let parsed_date = parse_date(date_str);
    assert!(parsed_date.is_some(), "Unable to parse");
}

#[test]
fn test_parse_date_valid_no_time() {
    let date_str = "2023-06-19";
    let parsed_date = parse_date(date_str);
    assert!(parsed_date.is_some(), "Expected Some, got None.");
}

#[test]
fn test_parse_date_invalid() {
    let date_str = "Not a date";
    let parsed_date = parse_date(date_str);
    assert!(parsed_date.is_none(), "Expected None, got Some.");
}

#[test]
fn test_parse_date_with_time() {
    let date_str = "Wed, 01 Jan 2020 12:34:56 GMT";
    let parsed_date = parse_date(date_str);
    assert!(parsed_date.is_some(), "Expected Some, got None.");

    let parsed_date = parsed_date.unwrap();
    let expected_date: DateTime<Utc> = "2020-01-01T12:34:56Z".parse().unwrap();
    assert_eq!(parsed_date.secs, expected_date.timestamp(), "Dates do not match.");
    assert_eq!(parsed_date.nanos, 0, "Dates do not match.");
}

#[test]
fn gmt_reads_as_zero_offset() {
    let gmt = parse_date("Tue, 1 Jul 2003 10:52:37 GMT");
    let zero = parse_date("Tue, 1 Jul 2003 10:52:37 +0000");
    assert!(gmt.is_some());
    assert_eq!(gmt, zero);
    assert_eq!(gmt.unwrap().secs, 1057056757);
}

#[test]
fn date_only_is_midnight_utc() {
    let expected: DateTime<Utc> = "2023-06-19T00:00:00Z".parse().unwrap();
    assert_eq!(parse_date("2023-06-19"), Some(UtcInstant { secs: expected.timestamp(), nanos: 0 }));
    assert_eq!(parse_date("2023-06-19").unwrap().secs, 1687132800);
}

#[test]
fn weekday_date_only_is_midnight_utc() {
    assert_eq!(parse_date("Wed, 31 May 2023"), Some(UtcInstant { secs: 1685491200, nanos: 0 }));
}

#[test]
fn date_only_after_leap_day() {
    assert_eq!(parse_date("2024-03-01"), Some(UtcInstant { secs: 1709251200, nanos: 0 }));
    assert_eq!(parse_date("2000-03-01"), Some(UtcInstant { secs: 951868800, nanos: 0 }));
}

#[test]
fn date_only_before_epoch() {
    assert_eq!(parse_date("1969-12-31"), Some(UtcInstant { secs: -86400, nanos: 0 }));
    assert_eq!(parse_date("1900-03-01"), Some(UtcInstant { secs: -2203891200, nanos: 0 }));
}

#[test]
fn rfc3339_with_offset_is_read_in_utc() {
    let r = parse_date("1996-12-19T16:39:57-08:00").unwrap();
    assert_eq!(r.secs, 851042397);
    let frac = parse_date("2021-05-04T10:00:00.25Z").unwrap();
    assert_eq!(frac.nanos, 250_000_000);
}

#[test]
fn rfc2822_with_offset_is_read_in_utc() {
    let r = parse_date("Tue, 1 Jul 2003 10:52:37 +0200").unwrap();
    assert_eq!(r.secs, 1057049557);
}

#[test]
fn empty_text_is_no_date() {
    assert_eq!(parse_date(""), None);
    assert_eq!(parse_date("GMT"), None);
}

#[test]
fn date_error_message() {
    assert_eq!(date_parse_error("soon"), "Failed to parse date and time: 'soon'");
}
