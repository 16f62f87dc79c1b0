use mzpeaks::range::{range_bounds, split_range_text, CoordinateRangeParseError};

fn tokens(s: &str) -> (Option<String>, Option<String>) {
    split_range_text(s)
}

fn owned(t: &str) -> Option<String> {
    Some(t.to_string())
}

fn parse(s: &str) -> Result<(Option<f64>, Option<f64>), CoordinateRangeParseError> {
    let (start, end) = split_range_text(s);
    range_bounds(
        start.map(|t| t.parse::<f64>()),
        end.map(|t| t.parse::<f64>()),
    )
}

#[test]
fn colon_hyphen_and_space_give_the_same_interval() {
    for s in ["10:20", "10-20", "10 20"] {
        assert_eq!(tokens(s), (owned("10"), owned("20")));
        assert_eq!(parse(s).unwrap(), (Some(10.0), Some(20.0)));
    }
}

#[test]
fn empty_start_is_unbounded() {
    assert_eq!(tokens(":20"), (None, owned("20")));
    assert_eq!(parse(":20").unwrap(), (None, Some(20.0)));
}

#[test]
fn empty_end_is_unbounded() {
    assert_eq!(tokens("10:"), (owned("10"), None));
    assert_eq!(parse("10:").unwrap(), (Some(10.0), None));
}

#[test]
fn bare_number_is_start_only() {
    assert_eq!(tokens("10"), (owned("10"), None));
    assert_eq!(parse("10.5").unwrap(), (Some(10.5), None));
}

#[test]
fn empty_text_is_unbounded_both_ways() {
    assert_eq!(tokens(""), (None, None));
    assert_eq!(parse("").unwrap(), (None, None));
}

#[test]
fn space_takes_priority_over_colon_and_hyphen() {
    assert_eq!(tokens("-5:1 20"), (owned("-5:1"), owned("20")));
    assert!(matches!(
        parse("-5:1 20"),
        Err(CoordinateRangeParseError::MalformedStart(_))
    ));
}

#[test]
fn colon_takes_priority_over_hyphen() {
    assert_eq!(tokens("-5:10"), (owned("-5"), owned("10")));
    assert_eq!(parse("-5:10").unwrap(), (Some(-5.0), Some(10.0)));
}

#[test]
fn only_the_first_delimiter_splits() {
    assert_eq!(tokens("10:20:30"), (owned("10"), owned("20:30")));
    assert!(matches!(
        parse("10:20:30"),
        Err(CoordinateRangeParseError::MalformedEnd(_))
    ));
}

#[test]
fn leading_hyphen_splits_when_it_is_the_only_delimiter() {
    assert_eq!(tokens("-5"), (None, owned("5")));
    assert_eq!(parse("-5").unwrap(), (None, Some(5.0)));
}

#[test]
fn non_numeric_start_is_malformed_start() {
    assert!(matches!(
        parse("a:20"),
        Err(CoordinateRangeParseError::MalformedStart(_))
    ));
}

#[test]
fn non_numeric_end_is_malformed_end() {
    assert!(matches!(
        parse("10:b"),
        Err(CoordinateRangeParseError::MalformedEnd(_))
    ));
}

#[test]
fn start_failure_is_reported_before_end_failure() {
    assert!(matches!(
        parse("a:b"),
        Err(CoordinateRangeParseError::MalformedStart(_))
    ));
}

#[test]
fn bounds_pass_through_untouched() {
    let r = range_bounds::<i64>(Some(Ok(3)), None).unwrap();
    assert_eq!(r, (Some(3), None));
    let r = range_bounds::<i64>(None, Some(Ok(-4))).unwrap();
    assert_eq!(r, (None, Some(-4)));
}

#[test]
fn error_text_names_the_failing_side() {
    let e = parse("a:20").unwrap_err();
    assert_eq!(e.to_string(), "Failed to parse range start invalid float literal");
    let e = parse("10:x").unwrap_err();
    assert_eq!(e.to_string(), "Failed to parse range end invalid float literal");
}

#[test]
fn error_carries_the_numeric_failure() {
    let inner = "zz".parse::<f64>().unwrap_err();
    match parse("zz:") {
        Err(CoordinateRangeParseError::MalformedStart(e)) => assert_eq!(e, inner),
        _ => panic!("expected a malformed start"),
    }
}
