//! Single-request transport decisions.

use waldur_cli::api::parse_method;
use waldur_cli::http::{
    auth_header_value, max_retries, read_response, request_url, set_transport_options, status_text,
    timeout_secs, u32_setting, u64_setting, uses_retrying_client, HttpError, TransportSettings,
};
use waldur_cli::json::{parse_json, Json};

#[test]
fn classic_tokens_use_the_token_scheme() {
    assert_eq!(auth_header_value("good-token"), "Token good-token");
}

#[test]
fn personal_access_tokens_use_bearer() {
    assert_eq!(auth_header_value("w_1735689599_abc123"), "Bearer w_1735689599_abc123");
    assert_eq!(auth_header_value("w"), "Token w");
}

#[test]
fn transport_defaults_apply_until_set() {
    let s = TransportSettings::new();
    assert_eq!(timeout_secs(&s), 60);
    assert_eq!(max_retries(&s), 3);
}

#[test]
fn transport_options_are_set_once() {
    let mut s = TransportSettings::new();
    set_transport_options(&mut s, Some(1), None);
    set_transport_options(&mut s, Some(99), Some(0));
    assert_eq!(timeout_secs(&s), 1);
    assert_eq!(max_retries(&s), 0);
    set_transport_options(&mut s, None, Some(7));
    assert_eq!(max_retries(&s), 0);
}

#[test]
fn env_settings_are_ignored_when_malformed() {
    assert_eq!(u64_setting(None, Some("15")), Some(15));
    assert_eq!(u64_setting(None, Some("soon")), None);
    assert_eq!(u64_setting(Some(4), Some("15")), Some(4));
    assert_eq!(u32_setting(None, Some("-1")), None);
    assert_eq!(u32_setting(None, Some("+2")), Some(2));
    assert_eq!(u32_setting(None, Some("4294967296")), None);
}

#[test]
fn only_replayable_methods_are_retried() {
    assert!(uses_retrying_client(&parse_method("GET").unwrap()));
    assert!(!uses_retrying_client(&parse_method("POST").unwrap()));
}

#[test]
fn urls_join_base_and_path() {
    assert_eq!(request_url("http://h:1", "/api/x/"), "http://h:1/api/x/");
}

#[test]
fn get_returns_parsed_json_body_when_successful() {
    let m = parse_method("GET").unwrap();
    let v = read_response(&m, "/api/customers/abc/", 200, r#"{"uuid": "abc", "name": "Acme"}"#).unwrap();
    assert_eq!(v, parse_json(r#"{"uuid": "abc", "name": "Acme"}"#).unwrap());
}

#[test]
fn an_empty_204_body_is_null() {
    let m = parse_method("DELETE").unwrap();
    assert_eq!(read_response(&m, "/api/customers/abc/", 204, "").unwrap(), Json::Null);
    assert_eq!(read_response(&m, "/x/", 200, " \n\t").unwrap(), Json::Null);
}

#[test]
fn an_error_status_includes_the_body() {
    let m = parse_method("GET").unwrap();
    let err = read_response(&m, "/api/customers/missing/", 404, r#"{"detail":"Not found."}"#).unwrap_err();
    assert_eq!(err.message(), r#"API error 404 Not Found: {"detail":"Not found."}"#);
}

#[test]
fn a_non_json_success_body_is_a_parse_error() {
    let m = parse_method("GET").unwrap();
    let err = read_response(&m, "/x/", 200, "<html>").unwrap_err();
    assert_eq!(err.message(), "failed to parse GET /x/ response body: expected value at line 1 column 1");
}

#[test]
fn transport_failures_name_the_request() {
    let e = HttpError::Send { method: "GET".to_string(), path: "/api/slow/".to_string() };
    assert_eq!(e.message(), "GET /api/slow/ request failed");
}

#[test]
fn status_lines_carry_the_reason() {
    assert_eq!(status_text(503), "503 Service Unavailable");
}
