use fitmenu::arguments::{arguments_from_captures, parse_today_arguments};
use fitmenu::error::ParseError;

fn groups(texts: &[Option<&str>]) -> Option<Vec<Option<String>>> {
    Some(texts.iter().map(|text| text.map(|t| t.to_string())).collect())
}

fn three(id: &str, date: &str, program_id: &str) -> (String, String, String) {
    (id.to_string(), date.to_string(), program_id.to_string())
}

#[test]
fn arguments_are_bound_by_position() {
    assert_eq!(parse_today_arguments("(42, '2024-01-05', '7')"), Ok(three("42", "2024-01-05", "7")));
}

#[test]
fn arguments_are_found_inside_a_call() {
    assert_eq!(
        parse_today_arguments("detalii_meniu(1805, '2023-11-30', '12'); return false;"),
        Ok(three("1805", "2023-11-30", "12"))
    );
}

#[test]
fn another_shape_holds_no_arguments() {
    assert_eq!(parse_today_arguments("(42, '2024-01-05')"), Err(ParseError::ArgumentsNotFound));
    assert_eq!(parse_today_arguments("(42, 2024-01-05, 7)"), Err(ParseError::ArgumentsNotFound));
    assert_eq!(parse_today_arguments("(x, '2024-01-05', '7')"), Err(ParseError::ArgumentsNotFound));
    assert_eq!(parse_today_arguments("(42,'2024-01-05','7')"), Err(ParseError::ArgumentsNotFound));
    assert_eq!(parse_today_arguments(""), Err(ParseError::ArgumentsNotFound));
}

#[test]
fn three_captures_make_the_arguments() {
    let captures = groups(&[Some("(42, '2024-01-05', '7')"), Some("42"), Some("2024-01-05"), Some("7")]);
    assert_eq!(arguments_from_captures(&captures), Ok(three("42", "2024-01-05", "7")));
}

#[test]
fn two_captures_are_fatal() {
    let captures = groups(&[Some("(42, '2024-01-05')"), Some("42"), Some("2024-01-05")]);
    assert_eq!(arguments_from_captures(&captures), Err(ParseError::CaptureCount(2)));
}

#[test]
fn any_other_count_of_captures_is_fatal() {
    assert_eq!(arguments_from_captures(&groups(&[])), Err(ParseError::CaptureCount(0)));
    assert_eq!(arguments_from_captures(&groups(&[Some("x")])), Err(ParseError::CaptureCount(0)));
    assert_eq!(
        arguments_from_captures(&groups(&[Some("x"), Some("1")])),
        Err(ParseError::CaptureCount(1))
    );
    assert_eq!(
        arguments_from_captures(&groups(&[Some("x"), Some("1"), Some("2"), Some("3"), Some("4")])),
        Err(ParseError::CaptureCount(4))
    );
}

#[test]
fn no_match_holds_no_arguments() {
    assert_eq!(arguments_from_captures(&None), Err(ParseError::ArgumentsNotFound));
}

#[test]
fn a_capture_that_took_no_part_is_fatal() {
    let captures = groups(&[Some("x"), Some("1"), None, Some("3")]);
    assert_eq!(arguments_from_captures(&captures), Err(ParseError::MissingCapture));
    let captures = groups(&[Some("x"), None]);
    assert_eq!(arguments_from_captures(&captures), Err(ParseError::MissingCapture));
}

#[test]
fn the_whole_match_is_not_an_argument() {
    let captures = groups(&[None, Some("1"), Some("2"), Some("3")]);
    assert_eq!(arguments_from_captures(&captures), Ok(three("1", "2", "3")));
}
