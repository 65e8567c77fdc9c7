//! Rendering of results, dry-run previews and errors.

use waldur_cli::json::{parse_json, Json};
use waldur_cli::output::{
    cell_text, render_dry_run, render_error, render_raw, render_result, tsv_escape, tsv_lines,
    OutputFormat, Rendered,
};

fn j(text: &str) -> Json {
    parse_json(text).unwrap()
}

#[test]
fn tsv_cells_lose_tabs_and_newlines() {
    assert_eq!(tsv_escape("a\tb\nc\rd"), "a b c d");
}

#[test]
fn cells_show_strings_raw_and_other_values_as_json() {
    let row = j(r#"{"s": "x", "n": 3, "b": false, "z": null, "o": {"k": [1]}}"#);
    assert_eq!(cell_text(&row, "s"), "x");
    assert_eq!(cell_text(&row, "n"), "3");
    assert_eq!(cell_text(&row, "b"), "false");
    assert_eq!(cell_text(&row, "z"), "-");
    assert_eq!(cell_text(&row, "missing"), "-");
    assert_eq!(cell_text(&row, "o"), r#"{"k":[1]}"#);
}

#[test]
fn tsv_has_one_line_per_row() {
    let v = j(r#"[{"uuid": "1", "name": "a\tb"}, {"uuid": "2"}]"#);
    assert_eq!(tsv_lines(&v, &["uuid", "name"]), vec!["1\ta b".to_string(), "2\t-".to_string()]);
    assert!(tsv_lines(&Json::Null, &["uuid"]).is_empty());
    assert_eq!(tsv_lines(&j(r#"{"uuid": "x"}"#), &["uuid"]), vec!["x".to_string()]);
}

#[test]
fn ndjson_streams_array_items() {
    let v = j(r#"[{"a": 1}, {"a": 2}]"#);
    match render_result(&v, &["a"], OutputFormat::Ndjson).unwrap() {
        Rendered::Ndjson(lines) => assert_eq!(lines, vec![r#"{"a":1}"#.to_string(), r#"{"a":2}"#.to_string()]),
        other => panic!("unexpected {other:?}"),
    }
}

#[test]
fn json_is_pretty() {
    match render_result(&j(r#"{"a": 1}"#), &[], OutputFormat::Json).unwrap() {
        Rendered::Block(t) => assert_eq!(t, "{\n  \"a\": 1\n}"),
        other => panic!("unexpected {other:?}"),
    }
}

#[test]
fn an_empty_table_says_so() {
    match render_result(&j("[]"), &["uuid"], OutputFormat::Table).unwrap() {
        Rendered::Block(t) => {
            assert!(t.contains("uuid"));
            assert!(t.ends_with("\n(no results)"));
        }
        other => panic!("unexpected {other:?}"),
    }
}

#[test]
fn raw_output_falls_back_to_json_for_tables() {
    match render_raw(&j(r#"[1]"#), OutputFormat::Table).unwrap() {
        Rendered::Block(t) => assert_eq!(t, "[\n  1\n]"),
        other => panic!("unexpected {other:?}"),
    }
}

#[test]
fn dry_run_as_json_is_structured() {
    match render_dry_run("POST", "/api/x/", Some(r#"{"name": "Preview me"}"#), OutputFormat::Json).unwrap() {
        Rendered::Block(t) => assert_eq!(
            j(&t),
            j(r#"{"dry_run": true, "method": "POST", "path": "/api/x/", "body": {"name": "Preview me"}}"#)
        ),
        other => panic!("unexpected {other:?}"),
    }
}

#[test]
fn dry_run_as_table_and_tsv() {
    match render_dry_run("DELETE", "/api/x/1/", None, OutputFormat::Table).unwrap() {
        Rendered::Lines(l) => assert_eq!(l, vec!["DRY RUN -- would send: DELETE /api/x/1/".to_string()]),
        other => panic!("unexpected {other:?}"),
    }
    match render_dry_run("DELETE", "/api/x/1/", None, OutputFormat::Tsv).unwrap() {
        Rendered::Lines(l) => assert_eq!(l, vec!["dry_run\tDELETE\t/api/x/1/".to_string()]),
        other => panic!("unexpected {other:?}"),
    }
    match render_dry_run("POST", "/p/", Some("not json"), OutputFormat::Ndjson).unwrap() {
        Rendered::Ndjson(l) => assert_eq!(
            l,
            vec![r#"{"dry_run":true,"method":"POST","path":"/p/","body":null}"#.to_string()]
        ),
        other => panic!("unexpected {other:?}"),
    }
}

#[test]
fn errors_match_the_output_format() {
    assert_eq!(render_error("boom", OutputFormat::Json), r#"{"error":"boom"}"#);
    assert_eq!(render_error("boom", OutputFormat::Ndjson), r#"{"error":"boom"}"#);
    assert_eq!(render_error("boom", OutputFormat::Table), "Error: boom");
    assert_eq!(render_error("boom", OutputFormat::Tsv), "Error: boom");
    assert!(render_error("boom", OutputFormat::Toon).contains("boom"));
}

#[test]
fn a_table_shows_the_header_and_each_row() {
    let v = j(r#"[{"uuid": "u-1", "name": "alpha"}, {"uuid": "u-2"}]"#);
    match render_result(&v, &["uuid", "name"], OutputFormat::Table).unwrap() {
        Rendered::Block(t) => {
            assert!(t.contains("uuid"));
            assert!(t.contains("name"));
            assert!(t.contains("u-1"));
            assert!(t.contains("alpha"));
            assert!(t.contains("u-2"));
            assert!(t.contains('│'));
            assert!(!t.contains("(no results)"));
        }
        other => panic!("unexpected {other:?}"),
    }
}

#[test]
fn toon_encodes_the_complete_value() {
    match render_result(&j(r#"{"a": 1, "b": "x"}"#), &["a"], OutputFormat::Toon).unwrap() {
        Rendered::Block(t) => assert_eq!(t, "a: 1\nb: x"),
        other => panic!("unexpected {other:?}"),
    }
    assert_eq!(render_error("boom", OutputFormat::Toon), "error: boom");
}
