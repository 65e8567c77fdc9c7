//! UUID collection for batch commands.

use waldur_cli::batch::{parse_uuid_lines, resolve_uuids, split_on_newlines};

#[test]
fn resolve_uuids_returns_explicit_args_unchanged_without_touching_stdin() {
    let result = resolve_uuids(vec!["a".to_string(), "b".to_string()], true, None).unwrap();
    assert_eq!(result, vec!["a".to_string(), "b".to_string()]);
}

#[test]
fn parse_uuid_lines_reads_bare_uuids_one_per_line() {
    let uuids = parse_uuid_lines("uuid-1\nuuid-2\nuuid-3\n").unwrap();
    assert_eq!(uuids, vec!["uuid-1".to_string(), "uuid-2".to_string(), "uuid-3".to_string()]);
}

#[test]
fn parse_uuid_lines_skips_blank_lines() {
    let uuids = parse_uuid_lines("uuid-1\n\n\nuuid-2\n").unwrap();
    assert_eq!(uuids, vec!["uuid-1".to_string(), "uuid-2".to_string()]);
}

#[test]
fn parse_uuid_lines_extracts_uuid_field_from_ndjson_objects() {
    let uuids = parse_uuid_lines(
        "{\"uuid\": \"abc-1\", \"name\": \"thing one\"}\n{\"uuid\": \"abc-2\", \"name\": \"thing two\"}\n",
    )
    .unwrap();
    assert_eq!(uuids, vec!["abc-1".to_string(), "abc-2".to_string()]);
}

#[test]
fn parse_uuid_lines_supports_a_mix_of_bare_uuids_and_ndjson_objects() {
    let uuids = parse_uuid_lines("bare-uuid\n{\"uuid\": \"json-uuid\"}\n").unwrap();
    assert_eq!(uuids, vec!["bare-uuid".to_string(), "json-uuid".to_string()]);
}

#[test]
fn parse_uuid_lines_errors_clearly_on_an_object_with_no_uuid_field() {
    let err = parse_uuid_lines("{\"name\": \"no uuid here\"}\n").unwrap_err();
    assert!(err.message().contains("no string `uuid` field"));
}

#[test]
fn parse_uuid_lines_treats_a_json_array_line_as_an_opaque_literal() {
    let uuids = parse_uuid_lines("[1, 2, 3]\n").unwrap();
    assert_eq!(uuids, vec!["[1, 2, 3]".to_string()]);
}

#[test]
fn resolve_uuids_refuses_a_terminal_stdin() {
    let err = resolve_uuids(Vec::new(), true, None).unwrap_err();
    assert!(err.message().starts_with("no UUIDs given, and stdin is a terminal"));
}

#[test]
fn resolve_uuids_reads_piped_stdin() {
    let uuids = resolve_uuids(Vec::new(), false, Some("a\r\n  b  \n")).unwrap();
    assert_eq!(uuids, vec!["a".to_string(), "b".to_string()]);
}

#[test]
fn resolve_uuids_with_empty_stdin_is_empty() {
    assert!(resolve_uuids(Vec::new(), false, None).unwrap().is_empty());
}

#[test]
fn a_uuid_field_that_is_not_a_string_is_an_error() {
    let err = parse_uuid_lines("{\"uuid\": 7}").unwrap_err();
    assert_eq!(err.message(), "stdin line has no string `uuid` field: {\"uuid\": 7}");
}

#[test]
fn a_last_line_without_newline_is_read() {
    assert_eq!(parse_uuid_lines("x\ny").unwrap(), vec!["x".to_string(), "y".to_string()]);
}

#[test]
fn splitting_keeps_an_empty_last_piece() {
    assert_eq!(split_on_newlines("a\nb\n"), vec!["a".to_string(), "b".to_string(), String::new()]);
    assert_eq!(split_on_newlines(""), vec![String::new()]);
}
