//! The pagination state machine.

use waldur_cli::json::{parse_json, Json};
use waldur_cli::pagination::{page_items, PageStep, Pager};

/// Drives a pager over pages of the given sizes (all reporting `total`),
/// handing items on until `stop_after` items; returns the items handed on
/// and the number of pages requested.
fn drive(limit: Option<i64>, total: Option<&str>, pages: &[usize], stop_after: Option<usize>) -> (usize, usize) {
    let mut pager = match Pager::start(limit) {
        Some(p) => p,
        None => return (0, 0),
    };
    let mut sent = 0usize;
    let mut requests = 0usize;
    loop {
        let got = pages[requests];
        requests += 1;
        pager.note_total(total);
        let items: Vec<Json> = (0..got).map(|_| Json::Null).collect();
        for _ in pager.take_page(items) {
            if stop_after == Some(sent) {
                return (sent, requests);
            }
            sent += 1;
        }
        match pager.finish_page(got) {
            PageStep::Finished => return (sent, requests),
            PageStep::Next => {}
            PageStep::TooManyPages => panic!("page cap"),
        }
    }
}

/// The items a fetch hands on, page by page, as `fetch_all` collects them.
fn collect(limit: Option<i64>, total: Option<&str>, bodies: &[&str]) -> Vec<Json> {
    let mut pager = match Pager::start(limit) {
        Some(p) => p,
        None => return Vec::new(),
    };
    let mut seen = Vec::new();
    let mut page = 0usize;
    loop {
        let items = page_items(bodies[page]).unwrap();
        page += 1;
        pager.note_total(total);
        let got = items.len();
        seen.extend(pager.take_page(items));
        match pager.finish_page(got) {
            PageStep::Finished => return seen,
            PageStep::Next => {}
            PageStep::TooManyPages => panic!("page cap"),
        }
    }
}

#[test]
fn pages_are_concatenated_in_order() {
    let seen = collect(
        None,
        Some("5"),
        &[r#"[{"uuid": "000"}, {"uuid": "001"}, {"uuid": "002"}]"#, r#"[{"uuid": "003"}, {"uuid": "004"}]"#],
    );
    assert_eq!(seen.len(), 5);
    assert_eq!(seen[0].str_field("uuid"), Some("000".to_string()));
    assert_eq!(seen[4].str_field("uuid"), Some("004".to_string()));
}

#[test]
fn a_limit_hands_on_only_the_first_items_of_a_page() {
    let seen = collect(Some(2), Some("100"), &[r#"[{"uuid": "a"}, {"uuid": "b"}, {"uuid": "c"}]"#]);
    assert_eq!(seen.len(), 2);
    assert_eq!(seen[1].str_field("uuid"), Some("b".to_string()));
}

#[test]
fn list_requests_are_retried_gets() {
    let m = waldur_cli::pagination::page_method();
    assert_eq!(m.as_str(), "GET");
    assert!(waldur_cli::http::uses_retrying_client(&m));
}

#[test]
fn a_single_page_returns_all_items() {
    assert_eq!(drive(None, Some("3"), &[3], None), (3, 1));
}

#[test]
fn pages_are_fetched_until_the_total_is_reached() {
    assert_eq!(drive(None, Some("5"), &[3, 2], None), (5, 2));
}

#[test]
fn a_limit_truncates_without_a_second_request() {
    assert_eq!(drive(Some(3), Some("100"), &[10], None), (3, 1));
}

#[test]
fn zero_or_negative_limit_needs_no_request() {
    assert!(Pager::start(Some(0)).is_none());
    assert!(Pager::start(Some(-5)).is_none());
    assert!(Pager::start(Some(1)).is_some());
}

#[test]
fn an_empty_result_set_stops_at_once() {
    assert_eq!(drive(None, Some("0"), &[0], None), (0, 1));
}

#[test]
fn without_a_total_a_short_page_ends_the_fetch() {
    assert_eq!(drive(None, None, &[300, 300, 7], None), (607, 3));
}

#[test]
fn a_consumer_can_stop_early() {
    assert_eq!(drive(None, Some("4"), &[2, 2], Some(1)), (1, 1));
}

#[test]
fn page_parameters_follow_the_filters() {
    let pager = Pager::start(Some(10)).unwrap();
    let params = pager.page_params(&[("name_exact".to_string(), "Acme".to_string())]);
    assert_eq!(
        params,
        vec![
            ("name_exact".to_string(), "Acme".to_string()),
            ("page".to_string(), "1".to_string()),
            ("page_size".to_string(), "10".to_string()),
        ]
    );
    let unlimited = Pager::start(None).unwrap();
    assert_eq!(unlimited.page_params(&[])[1].1, "300");
}

#[test]
fn a_failure_partway_reports_progress_so_far() {
    let mut pager = Pager::start(None).unwrap();
    pager.note_total(Some("10"));
    for _ in 0..3 {
        pager.item_sent();
    }
    assert!(matches!(pager.finish_page(3), PageStep::Next));
    let msg = pager.status_failed("500 Internal Server Error".to_string(), "internal error".to_string()).message();
    assert!(msg.contains("500"));
    assert!(msg.contains("3 of 10"));
    assert_eq!(
        msg,
        "API error 500 Internal Server Error on page 2 (fetched 3 of 10 item(s) before this failed): internal error"
    );
}

#[test]
fn only_the_first_count_header_is_used() {
    let mut pager = Pager::start(None).unwrap();
    pager.note_total(Some("oops"));
    pager.note_total(Some("4"));
    let msg = pager.too_many_pages().message();
    assert!(msg.contains("(Some(4))"));
    let mut fresh = Pager::start(None).unwrap();
    fresh.note_total(Some("x"));
    assert_eq!(fresh.send_failed().message(), "pagination request failed on page 1 (fetched 0 item(s) before this)");
}

#[test]
fn page_bodies_must_be_arrays() {
    assert_eq!(page_items(r#"[{"a": 1}, 2]"#).unwrap().len(), 2);
    assert_eq!(page_items(r#"{"a": 1}"#).unwrap_err(), "invalid type: map, expected a sequence at line 1 column 0");
    assert_eq!(page_items("nope").unwrap_err(), "expected ident at line 1 column 2");
    let pager = Pager::start(None).unwrap();
    assert_eq!(
        pager.parse_failed("expected value at line 1 column 1".to_string()).message(),
        "failed to parse page 1 body (fetched 0 item(s) before this): expected value at line 1 column 1"
    );
    assert_eq!(page_items("[]").unwrap(), Vec::new());
    let _ = parse_json("[]");
}
