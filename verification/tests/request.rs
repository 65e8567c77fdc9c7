//! Request-body loading: null stripping and the JSON/YAML file path.

use waldur_cli::json::{parse_json, Json};
use waldur_cli::request::{load_body, render_skeleton, RequestFile, SkeletonFormat};

fn j(text: &str) -> Json {
    parse_json(text).unwrap()
}

fn file(contents: &str) -> RequestFile {
    RequestFile { path: "body.yaml".to_string(), contents: contents.to_string() }
}

#[test]
fn load_body_strips_top_level_null_keys() {
    let body = load_body(Some(r#"{"name": "Acme", "email": null}"#), None).unwrap();
    assert_eq!(j(&body), j(r#"{"name": "Acme"}"#));
}

#[test]
fn load_body_strips_nested_null_keys() {
    let body = load_body(
        Some(r#"{"attributes": {"name": "vpc", "flavor": null}, "limits": null}"#),
        None,
    )
    .unwrap();
    assert_eq!(j(&body), j(r#"{"attributes": {"name": "vpc"}}"#));
}

#[test]
fn load_body_preserves_null_array_elements() {
    let body = load_body(Some(r#"{"items": ["a", null, "b"]}"#), None).unwrap();
    assert_eq!(j(&body), j(r#"{"items": ["a", null, "b"]}"#));
}

#[test]
fn load_body_rejects_malformed_json() {
    let err = load_body(Some("{not json"), None).unwrap_err();
    assert!(err.message().contains("not valid JSON"));
}

#[test]
fn load_body_requires_exactly_one_source() {
    let err = load_body(None, None).unwrap_err();
    assert!(err.message().contains("exactly one"));
}

#[test]
fn load_body_reads_json_from_file() {
    let body = load_body(None, Some(&file(r#"{"name": "Acme"}"#))).unwrap();
    assert_eq!(j(&body), j(r#"{"name": "Acme"}"#));
}

#[test]
fn load_body_reads_yaml_from_file() {
    let body = load_body(None, Some(&file("name: Acme\nabbreviation: null\n"))).unwrap();
    assert_eq!(j(&body), j(r#"{"name": "Acme"}"#));
}

#[test]
fn load_body_writes_compact_json() {
    let body = load_body(Some("{ \"a\" : 1 ,\n \"b\": [ true ] }"), None).unwrap();
    assert_eq!(body, r#"{"a":1,"b":[true]}"#);
}

#[test]
fn load_body_refuses_both_sources() {
    let err = load_body(Some("{}"), Some(&file("{}"))).unwrap_err();
    assert_eq!(err.message(), "provide exactly one of --request or --request-file");
}

#[test]
fn load_body_names_an_unparseable_file() {
    let err = load_body(None, Some(&file("a: [unclosed"))).unwrap_err();
    assert_eq!(
        err.message(),
        "parsing body.yaml as JSON or YAML: did not find expected ',' or ']' at line 2 column 1, while parsing a flow sequence at line 1 column 4"
    );
}

#[test]
fn load_body_strips_objects_inside_arrays() {
    let body = load_body(Some(r#"[{"a": null, "b": 1}, null]"#), None).unwrap();
    assert_eq!(body, r#"[{"b":1},null]"#);
}

#[test]
fn skeleton_as_json_is_the_template() {
    assert_eq!(render_skeleton("{\n  \"name\": null\n}", SkeletonFormat::Json).unwrap(), "{\n  \"name\": null\n}\n");
}

#[test]
fn skeleton_as_yaml_is_converted() {
    let yaml = render_skeleton(r#"{"name": "x"}"#, SkeletonFormat::Yaml).unwrap();
    assert_eq!(yaml, "name: x\n");
}

#[test]
fn an_invalid_skeleton_is_an_internal_error() {
    let err = render_skeleton("{", SkeletonFormat::Yaml).unwrap_err();
    assert_eq!(
        err.message(),
        "internal error: embedded skeleton is not valid JSON: EOF while parsing an object at line 1 column 1"
    );
}

#[test]
fn a_file_that_is_neither_json_nor_yaml_names_the_parser_error() {
    let file = RequestFile { path: "body.yaml".to_string(), contents: "a: [1, 2".to_string() };
    let msg = load_body(None, Some(&file)).unwrap_err().message();
    assert!(msg.starts_with("parsing body.yaml as JSON or YAML: "));
    assert!(msg.len() > "parsing body.yaml as JSON or YAML: ".len());
}

#[test]
fn a_malformed_inline_body_names_the_parser_error() {
    let err = load_body(Some("{not json"), None).unwrap_err();
    assert_eq!(err.message(), "request body is not valid JSON: key must be a string at line 1 column 2");
}
