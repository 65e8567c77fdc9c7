//! Marketplace-order flow decisions.

use waldur_cli::json::{parse_json, Json};
use waldur_cli::order::{
    after_order_created, after_termination_requested, apply_project, order_path, order_resource_path,
    poll_step, provision_plan, render_terminated, terminate_body, terminate_plan, AfterSubmit,
    OrderError, PollStep,
};
use waldur_cli::output::OutputFormat;

fn j(text: &str) -> Json {
    parse_json(text).unwrap()
}

#[test]
fn ambient_project_is_injected_when_absent() {
    let body = apply_project(r#"{"offering": "o"}"#, "http://h", Some("proj-uuid")).unwrap();
    assert_eq!(j(&body), j(r#"{"offering": "o", "project": "http://h/api/projects/proj-uuid/"}"#));
}

#[test]
fn explicit_project_in_body_wins_over_ambient_scope() {
    let body = apply_project(r#"{"offering": "o", "project": "http://h/api/projects/explicit/"}"#, "http://h", Some("ambient-uuid")).unwrap();
    assert_eq!(j(&body), j(r#"{"offering": "o", "project": "http://h/api/projects/explicit/"}"#));
}

#[test]
fn without_ambient_project_the_body_is_sent_verbatim() {
    let raw = r#"{ "offering" : "o" }"#;
    assert_eq!(apply_project(raw, "http://h", None).unwrap(), raw);
    assert_eq!(apply_project("not json", "http://h", None).unwrap(), "not json");
}

#[test]
fn an_invalid_body_is_refused_when_a_project_must_be_added() {
    let err = apply_project("not json", "http://h", Some("p")).unwrap_err();
    assert_eq!(err.message(), "request body is not valid JSON: expected ident at line 1 column 2");
}

#[test]
fn provision_dry_run_plans_a_preview_only() {
    let plan = provision_plan(r#"{"offering": "o", "project": "p"}"#, "http://h", None, true).unwrap();
    assert!(plan.dry_run);
    assert_eq!(plan.path, "/api/marketplace-orders/");
}

#[test]
fn no_wait_shows_the_order_without_polling() {
    let order = j(r#"{"uuid": "ord1", "state": "executing"}"#);
    assert!(matches!(after_order_created(&order, false).unwrap(), AfterSubmit::Show));
    match after_order_created(&order, true).unwrap() {
        AfterSubmit::Poll(u) => assert_eq!(u, "ord1"),
        AfterSubmit::Show => panic!("expected a poll"),
    }
    let err = after_order_created(&j("{}"), false).unwrap_err();
    assert_eq!(err.message(), "order response did not include a uuid");
}

#[test]
fn polls_through_executing_to_done() {
    assert!(matches!(poll_step(&j(r#"{"state": "executing"}"#), "ord1", false, 60), PollStep::Wait));
    assert!(matches!(poll_step(&j(r#"{"state": "done"}"#), "ord1", true, 60), PollStep::Done));
}

#[test]
fn erred_order_fails_with_the_server_message() {
    match poll_step(&j(r#"{"state": "erred", "error_message": "quota exceeded"}"#), "ord1", false, 60) {
        PollStep::Stop(e) => {
            let msg = e.message();
            assert!(msg.contains("erred"));
            assert!(msg.contains("quota exceeded"));
            assert_eq!(msg, "marketplace order ord1 erred: quota exceeded");
        }
        other => panic!("unexpected {other:?}"),
    }
    assert!(matches!(poll_step(&j(r#"{"state": "canceled"}"#), "o", false, 1), PollStep::Stop(OrderError::Failed { .. })));
    assert!(matches!(poll_step(&j(r#"{"state": "rejected"}"#), "o", false, 1), PollStep::Stop(OrderError::Failed { .. })));
}

#[test]
fn never_reaching_a_terminal_state_times_out() {
    match poll_step(&j(r#"{"state": "executing"}"#), "ord1", true, 0) {
        PollStep::Stop(e) => {
            let msg = e.message();
            assert!(msg.contains("timed out"));
            assert!(msg.starts_with("timed out after 0s waiting for marketplace order ord1 (last state: \"executing\")"));
        }
        other => panic!("unexpected {other:?}"),
    }
}

#[test]
fn a_missing_state_keeps_waiting() {
    assert!(matches!(poll_step(&j("{}"), "ord1", false, 60), PollStep::Wait));
}

#[test]
fn terminate_wraps_attributes() {
    assert_eq!(terminate_body(None).unwrap(), "{}");
    assert_eq!(terminate_body(Some(r#"{"force": true}"#)).unwrap(), r#"{"attributes":{"force":true}}"#);
    assert_eq!(
        terminate_body(Some("x")).unwrap_err().message(),
        "--request is not valid JSON: expected value at line 1 column 1"
    );
    let plan = terminate_plan("res1", None, false).unwrap();
    assert_eq!(plan.path, "/api/marketplace-resources/res1/terminate/");
    assert!(!plan.dry_run);
}

#[test]
fn terminate_needs_an_order_uuid() {
    match after_termination_requested(&j(r#"{"order_uuid": "ord1"}"#), true).unwrap() {
        AfterSubmit::Poll(u) => assert_eq!(u, "ord1"),
        AfterSubmit::Show => panic!("expected a poll"),
    }
    let err = after_termination_requested(&j("{}"), false).unwrap_err();
    assert_eq!(err.message(), "terminate response did not include an order_uuid");
}

#[test]
fn order_paths() {
    assert_eq!(order_path("ord1"), "/api/marketplace-orders/ord1/");
    assert_eq!(order_resource_path("ord1"), "/api/marketplace-orders/ord1/resource/");
}

#[test]
fn termination_is_confirmed_per_format() {
    assert_eq!(render_terminated("res1", OutputFormat::Json).unwrap(), r#"{"terminated":true,"uuid":"res1"}"#);
    assert_eq!(render_terminated("res1", OutputFormat::Table).unwrap(), "Terminated res1");
    assert_eq!(render_terminated("res1", OutputFormat::Tsv).unwrap(), "true\tres1");
}
