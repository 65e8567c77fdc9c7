//! `--jmespath` client-side reshaping.

use waldur_cli::json::{parse_json, Json};
use waldur_cli::query::apply;

fn j(text: &str) -> Json {
    parse_json(text).unwrap()
}

#[test]
fn projects_a_field_across_an_array() {
    let value = j(r#"[{"name": "Acme", "uuid": "1"}, {"name": "Beta", "uuid": "2"}]"#);
    let result = apply(value, "[].name").unwrap();
    assert_eq!(result, j(r#"["Acme", "Beta"]"#));
}

#[test]
fn filters_with_a_predicate() {
    let value = j(r#"[{"name": "Acme", "blocked": true}, {"name": "Beta", "blocked": false}]"#);
    let result = apply(value, "[?blocked==`true`].name").unwrap();
    assert_eq!(result, j(r#"["Acme"]"#));
}

#[test]
fn reshapes_into_an_object_projection() {
    let value = j(r#"[{"name": "Acme", "state": "OK", "extra": "ignored"}]"#);
    let result = apply(value, "[].{n: name, s: state}").unwrap();
    assert_eq!(result, j(r#"[{"n": "Acme", "s": "OK"}]"#));
}

#[test]
fn indexes_a_single_element() {
    let value = j(r#"[{"name": "Acme"}, {"name": "Beta"}]"#);
    let result = apply(value, "[0]").unwrap();
    assert_eq!(result, j(r#"{"name": "Acme"}"#));
}

#[test]
fn invalid_expression_is_a_clear_error() {
    let value = j("[]");
    let err = apply(value, "[").unwrap_err();
    assert!(err.message().contains("invalid --query expression"));
}

#[test]
fn nonexistent_field_yields_null_not_error() {
    let value = j(r#"{"name": "Acme"}"#);
    let result = apply(value, "nope").unwrap();
    assert_eq!(result, Json::Null);
}

#[test]
fn a_comparison_yields_a_boolean() {
    let value = j(r#"{"state": "OK"}"#);
    assert_eq!(apply(value, "state=='OK'").unwrap(), Json::Bool(true));
}
