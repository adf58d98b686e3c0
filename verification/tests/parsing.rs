use zerocal::time::{parse_duration, parse_opt_time, parse_time, DurationParseError, Instant};

const NANOS_PER_SEC: i128 = 1_000_000_000;

fn at_secs(s: i64) -> Instant {
    Instant { nanos: s as i128 * NANOS_PER_SEC }
}

#[test]
fn format_fallback() {
    let strict = parse_time("2023-06-01T12:30").unwrap();
    let rfc3339 = parse_time("2023-06-01T12:30:00Z").unwrap();
    assert_eq!(strict, at_secs(1685622600));
    assert_eq!(rfc3339, at_secs(1685622600));
}

#[test]
fn invalid_input_rejection() {
    assert!(parse_time("not-a-date").is_err());
    assert!(parse_duration("one hour").is_err());
}

#[test]
fn parse_time_unix_timestamp() {
    assert_eq!(parse_time("1511648546").unwrap(), at_secs(1511648546));
}

#[test]
fn parse_time_subsecond_precision() {
    let i = parse_time("2021-05-01T01:17:02.604456Z").unwrap();
    assert_eq!(i.nanos, 1619831822 * NANOS_PER_SEC + 604_456_000);
}

#[test]
fn parse_time_rfc2822() {
    assert_eq!(
        parse_time("Wed, 02 Jun 2021 06:31:39 GMT").unwrap(),
        at_secs(1622615499)
    );
}

#[test]
fn parse_time_naive_is_utc() {
    // No offset in the text: the instant is read as UTC, not local time.
    assert_eq!(parse_time("2023-01-01T10:00").unwrap(), at_secs(1672567200));
}

#[test]
fn parse_duration_units() {
    assert_eq!(parse_duration("1h").unwrap().nanos, 3600 * NANOS_PER_SEC);
    assert_eq!(parse_duration("90m").unwrap().nanos, 5400 * NANOS_PER_SEC);
    assert_eq!(parse_duration("2h30m").unwrap().nanos, 9000 * NANOS_PER_SEC);
    assert_eq!(
        parse_duration("3 days").unwrap().nanos,
        3 * 86400 * NANOS_PER_SEC
    );
    assert_eq!(parse_duration("30m").unwrap().nanos, 1800 * NANOS_PER_SEC);
}

#[test]
fn parse_duration_subsecond() {
    assert_eq!(parse_duration("250ms").unwrap().nanos, 250_000_000);
}

#[test]
fn parse_duration_syntax_error() {
    assert_eq!(parse_duration("one hour"), Err(DurationParseError::Syntax));
    assert_eq!(parse_duration(""), Err(DurationParseError::Syntax));
    assert_eq!(parse_duration("5 parsecs"), Err(DurationParseError::Syntax));
}

#[test]
fn parse_duration_too_large() {
    // Accepted by the grammar, but beyond i64::MAX milliseconds.
    assert_eq!(
        parse_duration("300000000years"),
        Err(DurationParseError::TooLarge)
    );
}

#[test]
fn huge_offset_is_an_error_not_fatal() {
    // A mistyped offset of 24 hours or more must be a parse error, never a
    // crash.
    assert!(parse_time("2021-02-21+2500").is_err());
    assert!(parse_time("2021-02-21 13:31 +2500").is_err());
    assert!(parse_time("2021-02-21 13:31 -25:00").is_err());
}

#[test]
fn ordinary_offsets_still_parse() {
    assert_eq!(
        parse_time("2014-04-26 13:13:44 +09:00").unwrap(),
        at_secs(1398485624)
    );
}

#[test]
fn late_month_days_still_parse() {
    // A date-only text whose day pair is 24 or more is no offset; it is
    // completed with the current time of day.
    let i = parse_time("2023-12-25").unwrap();
    assert!(1703462400 * NANOS_PER_SEC <= i.nanos && i.nanos < 1703548800 * NANOS_PER_SEC);
}

#[test]
fn oversized_duration_numbers_are_rejected() {
    // Numbers of more than ten digits are not handed to the grammar; this
    // also keeps out the text that would crash its carry normalization.
    assert_eq!(
        parse_duration("99999999999s"),
        Err(DurationParseError::Syntax)
    );
    assert_eq!(
        parse_duration("18446744073709551615s 1000000000ns"),
        Err(DurationParseError::Syntax)
    );
    // The grammar joins digit runs across white space into one number, and
    // the screen counts them the same way.
    assert_eq!(
        parse_duration("1844674407 3709551615s 1000000000ns"),
        Err(DurationParseError::Syntax)
    );
}

#[test]
fn spaced_duration_digits_still_parse() {
    // White space inside a number is allowed by the grammar; small joined
    // numbers stay accepted.
    assert_eq!(
        parse_duration("1 0s").unwrap().nanos,
        10 * NANOS_PER_SEC
    );
}

#[test]
fn ten_digit_duration_numbers_parse() {
    assert_eq!(
        parse_duration("9999999999s").unwrap().nanos,
        9999999999 * NANOS_PER_SEC
    );
}

#[test]
fn parse_opt_time_absent_and_empty() {
    assert_eq!(parse_opt_time(None), Ok(None));
    let empty = String::new();
    assert_eq!(parse_opt_time(Some(&empty)), Ok(None));
}

#[test]
fn parse_opt_time_present() {
    let text = "1511648546".to_string();
    assert_eq!(parse_opt_time(Some(&text)), Ok(Some(at_secs(1511648546))));
}
