//! `wait` poll decisions.

use waldur_cli::json::{parse_json, Json};
use waldur_cli::wait::{condition_met, poll_interval_secs, wait_step, WaitStep};

fn j(text: &str) -> Json {
    parse_json(text).unwrap()
}

#[test]
fn only_false_and_null_are_unmet() {
    assert!(!condition_met(&Json::Null));
    assert!(!condition_met(&Json::Bool(false)));
    assert!(condition_met(&Json::Bool(true)));
    assert!(condition_met(&j(r#""res1""#)));
    assert!(condition_met(&j("0")));
    assert!(condition_met(&j("[]")));
}

#[test]
fn the_interval_is_at_least_a_second() {
    assert_eq!(poll_interval_secs(0), 1);
    assert_eq!(poll_interval_secs(3), 3);
}

#[test]
fn a_met_condition_stops_even_past_the_deadline() {
    assert!(matches!(wait_step(&Json::Bool(true), true, "x", "/p/", 0), WaitStep::Met));
}

#[test]
fn an_unmet_condition_waits_with_its_value_as_label() {
    match wait_step(&Json::Null, false, "resource_uuid", "/p/", 60) {
        WaitStep::Wait(label) => assert_eq!(label, "null"),
        other => panic!("unexpected {other:?}"),
    }
}

#[test]
fn never_met_times_out_with_a_clear_message() {
    match wait_step(&Json::Bool(false), true, "state=='OK'", "/api/customers/abc/", 0) {
        WaitStep::Stop(e) => {
            let msg = e.message();
            assert!(msg.contains("timed out"));
            assert!(msg.contains("state=='OK'"));
            assert!(msg.starts_with("timed out after 0s waiting for `state=='OK'` on /api/customers/abc/ (last value: false)"));
        }
        other => panic!("unexpected {other:?}"),
    }
}
