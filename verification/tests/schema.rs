//! The `schema` command's narrowing.

use waldur_cli::cli_schema::render_schema;
use waldur_cli::json::{parse_json, Json};
use waldur_cli::output::{OutputFormat, Rendered};

const SCHEMA: &str = r#"{
  "version": "1.2.3",
  "groups": [{"name": "openstack", "description": "o"}, {"name": "team", "description": "t"}],
  "commands": [
    {"path": ["openstack", "instance", "list"], "description": "List instances", "type": "list", "args": []},
    {"path": ["team", "user", "get"], "description": "Get a user", "type": "get", "args": [1]}
  ]
}"#;

fn j(text: &str) -> Json {
    parse_json(text).unwrap()
}

fn rendered_json(group: Option<&str>, compact: bool) -> Json {
    match render_schema(SCHEMA, group, compact, OutputFormat::Json).unwrap() {
        Rendered::Block(t) => j(&t),
        other => panic!("unexpected {other:?}"),
    }
}

#[test]
fn the_full_schema_is_printed_unchanged() {
    assert_eq!(rendered_json(None, false), j(SCHEMA));
}

#[test]
fn compact_keeps_paths_descriptions_and_types() {
    assert_eq!(
        rendered_json(Some("team"), true),
        j(r#"{"version": "1.2.3", "groups": [{"name": "team", "description": "t"}],
              "commands": [{"path": ["team", "user", "get"], "description": "Get a user", "type": "get"}]}"#)
    );
}

#[test]
fn a_group_filter_keeps_whole_commands() {
    assert_eq!(
        rendered_json(Some("openstack"), false),
        j(r#"{"version": "1.2.3", "groups": [{"name": "openstack", "description": "o"}],
              "commands": [{"path": ["openstack", "instance", "list"], "description": "List instances", "type": "list", "args": []}]}"#)
    );
}

#[test]
fn an_invalid_schema_is_an_internal_error() {
    let err = render_schema("{", None, false, OutputFormat::Json).unwrap_err();
    assert_eq!(
        err.message(),
        "internal error: CLI_SCHEMA_JSON is not valid JSON: EOF while parsing an object at line 1 column 1"
    );
}

#[test]
fn ndjson_schema_is_one_line() {
    match render_schema(r#"{"version": "1"}"#, None, true, OutputFormat::Ndjson).unwrap() {
        Rendered::Ndjson(lines) => assert_eq!(lines, vec![r#"{"version":"1"}"#.to_string()]),
        other => panic!("unexpected {other:?}"),
    }
}
