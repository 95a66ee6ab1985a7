use focusbot::parse::{parse, FocusError};

#[test]
fn parse_ten_minutes() {
    assert_eq!(parse("10 minutes"), Ok(600));
}

#[test]
fn parse_twenty_five_minutes() {
    assert_eq!(parse("25 minutes"), Ok(1500));
}

#[test]
fn parse_compound_duration() {
    // One hour less than a day.
    assert_eq!(parse("1 day -1 hour"), Ok(82_800));
}

#[test]
fn parse_short_units() {
    assert_eq!(parse("1h30m"), Ok(5_400));
}

#[test]
fn parse_bare_number_is_seconds() {
    assert_eq!(parse("90"), Ok(90));
}

#[test]
fn parse_empty_rejected() {
    assert_eq!(parse(""), Err(FocusError::InvalidDuration));
}

#[test]
fn parse_garbage_rejected() {
    assert_eq!(parse("not a duration at all"), Err(FocusError::InvalidDuration));
}

#[test]
fn parse_zero_rejected() {
    assert_eq!(parse("0 seconds"), Err(FocusError::InvalidDuration));
}

#[test]
fn parse_subsecond_rejected() {
    // Under one whole second there is nothing to wait for.
    assert_eq!(parse("500 milliseconds"), Err(FocusError::InvalidDuration));
}

#[test]
fn parse_result_is_positive() {
    for text in ["1 second", "2 hours", "3 days", "10d1n15y"] {
        let d = parse(text).unwrap();
        assert!(d > 0);
    }
}
