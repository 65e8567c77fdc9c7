//! Method and path normalisation for the `api` escape hatch.

use waldur_cli::api::{normalize_path, optional_body, parse_method};
use waldur_cli::request::RequestFile;

#[test]
fn parse_method_is_case_insensitive() {
    assert_eq!(parse_method("get").unwrap().as_str(), "GET");
    assert_eq!(parse_method("Post").unwrap().as_str(), "POST");
    assert_eq!(parse_method("DELETE").unwrap().as_str(), "DELETE");
}

#[test]
fn parse_method_rejects_a_malformed_token() {
    let err = parse_method("bad method").unwrap_err();
    assert!(err.message().contains("not a valid HTTP method"));
}

#[test]
fn parse_method_accepts_a_nonstandard_verb() {
    assert!(parse_method("PURGE").is_ok());
}

#[test]
fn normalize_path_adds_a_leading_slash_when_missing() {
    assert_eq!(normalize_path("api/customers/"), "/api/customers/");
}

#[test]
fn normalize_path_leaves_an_existing_leading_slash_alone() {
    assert_eq!(normalize_path("/api/customers/"), "/api/customers/");
}

#[test]
fn parse_method_rejects_an_empty_method() {
    let err = parse_method("").unwrap_err();
    assert_eq!(err.message(), "`` is not a valid HTTP method");
}

#[test]
fn parse_method_keeps_the_raw_text_in_its_error() {
    let err = parse_method("ge t").unwrap_err();
    assert_eq!(err.message(), "`ge t` is not a valid HTTP method");
}

#[test]
fn parse_method_uppercases_extension_verbs() {
    assert_eq!(parse_method("purge").unwrap().as_str(), "PURGE");
}

#[test]
fn parse_method_idempotence_follows_the_method() {
    assert!(parse_method("get").unwrap().is_idempotent());
    assert!(parse_method("put").unwrap().is_idempotent());
    assert!(parse_method("delete").unwrap().is_idempotent());
    assert!(!parse_method("post").unwrap().is_idempotent());
    assert!(!parse_method("patch").unwrap().is_idempotent());
    assert!(!parse_method("purge").unwrap().is_idempotent());
}

#[test]
fn normalize_path_of_an_empty_path_is_the_root() {
    assert_eq!(normalize_path(""), "/");
}

#[test]
fn normalizing_twice_changes_nothing() {
    let once = normalize_path("api/x/");
    assert_eq!(normalize_path(&once), once);
}

#[test]
fn optional_body_is_absent_without_a_source() {
    assert_eq!(optional_body(None, None).unwrap(), None);
}

#[test]
fn optional_body_loads_an_inline_body() {
    let body = optional_body(Some(r#"{"name": "x", "extra": null}"#), None).unwrap();
    assert_eq!(body.as_deref(), Some(r#"{"name":"x"}"#));
}

#[test]
fn optional_body_refuses_two_sources() {
    let file = RequestFile { path: "b.json".to_string(), contents: String::new() };
    let err = optional_body(Some("{}"), Some(&file)).unwrap_err();
    assert!(err.message().contains("exactly one"));
}

#[test]
fn a_body_error_keeps_the_body_loaders_text() {
    let err = optional_body(Some("[1,"), None).unwrap_err();
    assert_eq!(err.message(), "request body is not valid JSON: EOF while parsing a value at line 1 column 3");
}
