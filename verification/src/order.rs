//! Marketplace-order provisioning, the asynchronous flow that resource
//! creation and deletion go through instead of a direct REST call.
//!
//! Provision: POST the order to `/api/marketplace-orders/`, then (unless
//! `--no-wait`) poll it to a terminal state and fetch the resulting
//! resource. Terminate: POST to the resource's `terminate/` action (which
//! returns an order) and poll that. The functions here decide each step;
//! sending requests, sleeping between polls and printing are the caller's.

use vstd::prelude::*;
use crate::json::{
    has_key, json_parse, json_text, lemma_lookup_push, lemma_object_view, lookup, parse_json,
    str_field, to_json_text, Json, JsonView,
};
use crate::output::{error_object, toon_output, OutputError, OutputFormat};
use crate::text::{concat2, concat3, concat4, debug_quoted, debug_text, decimal, owned, str_eq, u64_text};

verus! {

/// The order endpoint.
pub const ORDERS_PATH: &'static str = "/api/marketplace-orders/";

/// Seconds between two polls of an in-flight order.
pub const POLL_INTERVAL_SECS: u64 = 3;

/// Columns for an order shown under `--no-wait`.
pub fn order_columns() -> (r: Vec<&'static str>)
    ensures
        r@.map_values(|c: &str| c@) == seq!["uuid"@, "state"@, "resource_uuid"@, "error_message"@],
{
    let mut cols: Vec<&'static str> = Vec::new();
    cols.push("uuid");
    cols.push("state");
    cols.push("resource_uuid");
    cols.push("error_message");
    assert(cols@.map_values(|c: &str| c@) =~= seq![
        "uuid"@,
        "state"@,
        "resource_uuid"@,
        "error_message"@,
    ]);
    cols
}

/// Columns for a provisioned resource (its type varies by offering).
pub fn resource_columns() -> (r: Vec<&'static str>)
    ensures
        r@.map_values(|c: &str| c@) == seq!["uuid"@, "name"@, "state"@],
{
    let mut cols: Vec<&'static str> = Vec::new();
    cols.push("uuid");
    cols.push("name");
    cols.push("state");
    assert(cols@.map_values(|c: &str| c@) =~= seq!["uuid"@, "name"@, "state"@]);
    cols
}

/// Why an order flow stopped.
#[derive(Debug)]
pub enum OrderError {
    /// The order body is not JSON (holds the parser's message).
    InvalidBody(String),
    /// The termination attributes are not JSON (holds the parser's message).
    InvalidAttributes(String),
    /// The created order has no `uuid`.
    MissingUuid,
    /// The termination response has no `order_uuid`.
    MissingOrderUuid,
    /// The order reached a failure state.
    Failed { uuid: String, state: String, message: String },
    /// The order did not reach a terminal state in time.
    TimedOut { secs: u64, uuid: String, state: String },
}

impl OrderError {
    /// The error's text.
    pub fn message(&self) -> (r: String)
        ensures
            self matches OrderError::InvalidBody(c) ==> r@ == "request body is not valid JSON: "@
                + c@,
            self matches OrderError::InvalidAttributes(c) ==> r@ == "--request is not valid JSON: "@
                + c@,
            self matches OrderError::MissingUuid ==> r@ == "order response did not include a uuid"@,
            self matches OrderError::MissingOrderUuid ==> r@
                == "terminate response did not include an order_uuid"@,
            self matches OrderError::Failed { uuid, state, message } ==> r@
                == "marketplace order "@ + uuid@ + " "@ + state@ + ": "@ + message@,
            self matches OrderError::TimedOut { secs, uuid, state } ==> r@ == "timed out after "@
                + decimal(*secs as nat) + "s waiting for marketplace order "@ + uuid@
                + " (last state: "@ + debug_text(state@)
                + ") -- it may still complete; check with `waldur-cli` against /api/marketplace-orders/, or retry with a longer --timeout"@,
    {
        match self {
            OrderError::InvalidBody(c) => concat2("request body is not valid JSON: ", c.as_str()),
            OrderError::InvalidAttributes(c) => concat2("--request is not valid JSON: ", c.as_str()),
            OrderError::MissingUuid => owned("order response did not include a uuid"),
            OrderError::MissingOrderUuid => owned("terminate response did not include an order_uuid"),
            OrderError::Failed { uuid, state, message } => {
                let a = concat4("marketplace order ", uuid.as_str(), " ", state.as_str());
                concat3(a.as_str(), ": ", message.as_str())
            },
            OrderError::TimedOut { secs, uuid, state } => {
                let s = u64_text(*secs);
                let a = concat4(
                    "timed out after ",
                    s.as_str(),
                    "s waiting for marketplace order ",
                    uuid.as_str(),
                );
                let d = debug_quoted(state.as_str());
                concat4(
                    a.as_str(),
                    " (last state: ",
                    d.as_str(),
                    ") -- it may still complete; check with `waldur-cli` against /api/marketplace-orders/, or retry with a longer --timeout",
                )
            },
        }
    }
}

// ---------------------------------------------------------------------------
// Request bodies and paths
// ---------------------------------------------------------------------------

/// The project URL built from a project UUID.
pub open spec fn project_url(base_url: Seq<char>, uuid: Seq<char>) -> Seq<char> {
    base_url + "/api/projects/"@ + uuid + "/"@
}

/// `v` with a `project` entry `url` appended when it is an object that
/// names no project; otherwise `v` unchanged.
pub open spec fn with_project(v: JsonView, url: Seq<char>) -> JsonView {
    match v {
        JsonView::Object(e) => if has_key(e, "project"@) {
            v
        } else {
            JsonView::Object(e.push(("project"@, JsonView::Str(url))))
        },
        _ => v,
    }
}

/// The order body actually sent: with no ambient project, `body` as given;
/// otherwise `body` re-written with the project filled in unless it already
/// names one. The error is the parser's message.
pub open spec fn order_body(body: Seq<char>, base_url: Seq<char>, project: Option<Seq<char>>) -> Result<
    Seq<char>,
    Seq<char>,
> {
    match project {
        None => Ok(body),
        Some(uuid) => match json_parse(body) {
            Err(cause) => Err(cause),
            Ok(v) => Ok(json_text(with_project(v, project_url(base_url, uuid)))),
        },
    }
}

/// Fills the ambient `--project` scope (a UUID) into an order body as a
/// project URL, unless the body already names a project (an explicit one
/// wins).
pub fn apply_project(body: &str, base_url: &str, project: Option<&str>) -> (r: Result<
    String,
    OrderError,
>)
    ensures
        match (r, order_body(
            body@,
            base_url@,
            match project {
                Some(s) => Some(s@),
                None => None,
            },
        )) {
            (Ok(b), Ok(s)) => b@ == s,
            (Err(OrderError::InvalidBody(c)), Err(d)) => c@ == d,
            _ => false,
        },
{
    let uuid = match project {
        None => {
            return Ok(owned(body));
        },
        Some(u) => u,
    };
    let value = match parse_json(body) {
        Err(cause) => {
            return Err(OrderError::InvalidBody(cause));
        },
        Ok(v) => v,
    };
    let url = concat4(base_url, "/api/projects/", uuid, "/");
    let named = value.get("project").is_some();
    match value {
        Json::Object(mut entries) => {
            proof {
                lemma_object_view(&entries);
            }
            if !named {
                let ghost before = Seq::new(entries@.len(), |i: int| (entries@[i].0@, entries@[i].1@));
                entries.push((owned("project"), Json::Str(url)));
                proof {
                    lemma_object_view(&entries);
                    assert(Seq::new(entries@.len(), |i: int| (entries@[i].0@, entries@[i].1@))
                        =~= before.push(("project"@, JsonView::Str(url@))));
                }
            }
            Ok(to_json_text(&Json::Object(entries)))
        },
        other => Ok(to_json_text(&other)),
    }
}

/// The path of an order.
pub open spec fn order_path_spec(uuid: Seq<char>) -> Seq<char> {
    "/api/marketplace-orders/"@ + uuid + "/"@
}

/// `/api/marketplace-orders/{uuid}/`.
pub fn order_path(uuid: &str) -> (r: String)
    ensures
        r@ == order_path_spec(uuid@),
{
    concat3("/api/marketplace-orders/", uuid, "/")
}

/// `/api/marketplace-orders/{uuid}/resource/`: the resource an order made.
pub fn order_resource_path(uuid: &str) -> (r: String)
    ensures
        r@ == "/api/marketplace-orders/"@ + uuid@ + "/resource/"@,
{
    concat3("/api/marketplace-orders/", uuid, "/resource/")
}

/// `/api/marketplace-resources/{uuid}/terminate/`.
pub fn terminate_path(resource_uuid: &str) -> (r: String)
    ensures
        r@ == "/api/marketplace-resources/"@ + resource_uuid@ + "/terminate/"@,
{
    concat3("/api/marketplace-resources/", resource_uuid, "/terminate/")
}

/// The body of a terminate request: `{}`, or the given attributes wrapped
/// as `{"attributes": ...}`. The error is the parser's message.
pub open spec fn terminate_body_spec(attributes: Option<Seq<char>>) -> Result<Seq<char>, Seq<char>> {
    match attributes {
        None => Ok("{}"@),
        Some(a) => match json_parse(a) {
            Err(cause) => Err(cause),
            Ok(v) => Ok(json_text(JsonView::Object(seq![("attributes"@, v)]))),
        },
    }
}

/// Builds the terminate request body.
pub fn terminate_body(attributes: Option<&str>) -> (r: Result<String, OrderError>)
    ensures
        match (r, terminate_body_spec(
            match attributes {
                Some(s) => Some(s@),
                None => None,
            },
        )) {
            (Ok(b), Ok(s)) => b@ == s,
            (Err(OrderError::InvalidAttributes(c)), Err(d)) => c@ == d,
            _ => false,
        },
{
    match attributes {
        None => Ok(owned("{}")),
        Some(a) => match parse_json(a) {
            Err(cause) => Err(OrderError::InvalidAttributes(cause)),
            Ok(v) => {
                let mut entries: Vec<(String, Json)> = Vec::new();
                entries.push((owned("attributes"), v));
                proof {
                    lemma_object_view(&entries);
                    assert(Seq::new(entries@.len(), |i: int| (entries@[i].0@, entries@[i].1@))
                        =~= seq![("attributes"@, entries@[0].1@)]);
                }
                Ok(to_json_text(&Json::Object(entries)))
            },
        },
    }
}

// ---------------------------------------------------------------------------
// Flow
// ---------------------------------------------------------------------------

/// The first request of a flow: a POST of `body` to `path`, previewed
/// instead of sent under `--dry-run`.
#[derive(Debug)]
pub struct OrderPlan {
    pub path: String,
    pub body: String,
    /// Whether to print a preview instead of sending.
    pub dry_run: bool,
}

/// The plan for `provision`: the order body (with the ambient project
/// filled in) POSTed to the order endpoint.
pub fn provision_plan(body: &str, base_url: &str, project: Option<&str>, dry_run: bool) -> (r: Result<
    OrderPlan,
    OrderError,
>)
    ensures
        match (r, order_body(
            body@,
            base_url@,
            match project {
                Some(s) => Some(s@),
                None => None,
            },
        )) {
            (Ok(p), Ok(b)) => p.path@ == "/api/marketplace-orders/"@ && p.body@ == b && p.dry_run
                == dry_run,
            (Err(OrderError::InvalidBody(c)), Err(d)) => c@ == d,
            _ => false,
        },
{
    let b = apply_project(body, base_url, project)?;
    Ok(OrderPlan { path: owned(ORDERS_PATH), body: b, dry_run })
}

/// The plan for `terminate`: the terminate body POSTed to the resource's
/// `terminate/` action.
pub fn terminate_plan(resource_uuid: &str, attributes: Option<&str>, dry_run: bool) -> (r: Result<
    OrderPlan,
    OrderError,
>)
    ensures
        match (r, terminate_body_spec(
            match attributes {
                Some(s) => Some(s@),
                None => None,
            },
        )) {
            (Ok(p), Ok(b)) => p.path@ == "/api/marketplace-resources/"@ + resource_uuid@
                + "/terminate/"@ && p.body@ == b && p.dry_run == dry_run,
            (Err(OrderError::InvalidAttributes(c)), Err(d)) => c@ == d,
            _ => false,
        },
{
    let b = terminate_body(attributes)?;
    Ok(OrderPlan { path: terminate_path(resource_uuid), body: b, dry_run })
}

/// What follows a submitted order or termination request.
#[derive(Debug)]
pub enum AfterSubmit {
    /// `--no-wait`: show the response and stop.
    Show,
    /// Poll the order with this UUID to a terminal state.
    Poll(String),
}

/// The step after the order was created: its `uuid` is required either
/// way; without `wait` the order is shown, otherwise it is polled.
pub fn after_order_created(order: &Json, wait: bool) -> (r: Result<AfterSubmit, OrderError>)
    ensures
        match str_field(order@, "uuid"@) {
            None => r matches Err(OrderError::MissingUuid),
            Some(u) => if wait {
                r matches Ok(AfterSubmit::Poll(p)) && p@ == u
            } else {
                r matches Ok(AfterSubmit::Show)
            },
        },
{
    let uuid = match order.str_field("uuid") {
        Some(u) => u,
        None => {
            return Err(OrderError::MissingUuid);
        },
    };
    if wait {
        Ok(AfterSubmit::Poll(uuid))
    } else {
        Ok(AfterSubmit::Show)
    }
}

/// The step after termination was requested: the response's `order_uuid`
/// is required either way; without `wait` the response is shown, otherwise
/// that order is polled.
pub fn after_termination_requested(response: &Json, wait: bool) -> (r: Result<
    AfterSubmit,
    OrderError,
>)
    ensures
        match str_field(response@, "order_uuid"@) {
            None => r matches Err(OrderError::MissingOrderUuid),
            Some(u) => if wait {
                r matches Ok(AfterSubmit::Poll(p)) && p@ == u
            } else {
                r matches Ok(AfterSubmit::Show)
            },
        },
{
    let uuid = match response.str_field("order_uuid") {
        Some(u) => u,
        None => {
            return Err(OrderError::MissingOrderUuid);
        },
    };
    if wait {
        Ok(AfterSubmit::Poll(uuid))
    } else {
        Ok(AfterSubmit::Show)
    }
}

/// The state reported by a polled order (`""` when it has none).
pub open spec fn order_state(order: JsonView) -> Seq<char> {
    match str_field(order, "state"@) {
        Some(s) => s,
        None => Seq::empty(),
    }
}

/// Whether a state is one of the order's failure states.
pub open spec fn is_failure_state(state: Seq<char>) -> bool {
    state == "erred"@ || state == "canceled"@ || state == "rejected"@
}

/// What a poll concludes.
#[derive(Debug)]
pub enum PollStep {
    /// The order is done.
    Done,
    /// Sleep and poll again.
    Wait,
    /// Stop with this error (a failure state, or the deadline passed).
    Stop(OrderError),
}

/// What one poll of order `uuid` concludes: `done` ends the flow, a failure
/// state stops it with the server's `error_message`, and any other state
/// waits, unless the deadline has passed.
pub fn poll_step(order: &Json, uuid: &str, deadline_passed: bool, timeout_secs: u64) -> (r: PollStep)
    ensures
        order_state(order@) == "done"@ ==> r matches PollStep::Done,
        is_failure_state(order_state(order@)) ==> (r matches PollStep::Stop(
            OrderError::Failed { uuid: u, state: s, message: m },
        ) && u@ == uuid@ && s@ == order_state(order@) && m@ == (match str_field(
            order@,
            "error_message"@,
        ) {
            Some(x) => x,
            None => Seq::empty(),
        })),
        order_state(order@) != "done"@ && !is_failure_state(order_state(order@)) ==> (if deadline_passed {
            r matches PollStep::Stop(OrderError::TimedOut { secs, uuid: u, state: s }) && secs
                == timeout_secs && u@ == uuid@ && s@ == order_state(order@)
        } else {
            r matches PollStep::Wait
        }),
{
    let state = match order.str_field("state") {
        Some(s) => s,
        None => String::new(),
    };
    proof {
        reveal_strlit("done");
        reveal_strlit("erred");
        reveal_strlit("canceled");
        reveal_strlit("rejected");
        assert("done"@.len() == 4);
        assert("erred"@.len() == 5);
        assert(!is_failure_state("done"@));
    }
    if str_eq(state.as_str(), "done") {
        return PollStep::Done;
    }
    if str_eq(state.as_str(), "erred") || str_eq(state.as_str(), "canceled") || str_eq(
        state.as_str(),
        "rejected",
    ) {
        let message = match order.str_field("error_message") {
            Some(m) => m,
            None => String::new(),
        };
        return PollStep::Stop(OrderError::Failed { uuid: owned(uuid), state, message });
    }
    if deadline_passed {
        return PollStep::Stop(OrderError::TimedOut { secs: timeout_secs, uuid: owned(uuid), state });
    }
    PollStep::Wait
}

/// What `terminate` prints once the termination order is done.
pub open spec fn terminated_output(resource_uuid: Seq<char>, format: OutputFormat) -> Result<
    Seq<char>,
    Seq<char>,
> {
    let obj = JsonView::Object(
        seq![("terminated"@, JsonView::Bool(true)), ("uuid"@, JsonView::Str(resource_uuid))],
    );
    match format {
        OutputFormat::Json | OutputFormat::Ndjson => Ok(json_text(obj)),
        OutputFormat::Table => Ok("Terminated "@ + resource_uuid),
        OutputFormat::Tsv => Ok("true\t"@ + resource_uuid),
        OutputFormat::Toon => toon_output(obj),
    }
}

/// The confirmation line `terminate` prints.
pub fn render_terminated(resource_uuid: &str, format: OutputFormat) -> (r: Result<
    String,
    OutputError,
>)
    ensures
        match (r, terminated_output(resource_uuid@, format)) {
            (Ok(t), Ok(s)) => t@ == s,
            (Err(e), Err(m)) => e.message@ == m,
            _ => false,
        },
{
    let mut entries: Vec<(String, Json)> = Vec::new();
    entries.push((owned("terminated"), Json::Bool(true)));
    entries.push((owned("uuid"), Json::string(resource_uuid)));
    proof {
        lemma_object_view(&entries);
        assert(Seq::new(entries@.len(), |i: int| (entries@[i].0@, entries@[i].1@)) =~= seq![
            ("terminated"@, JsonView::Bool(true)),
            ("uuid"@, JsonView::Str(resource_uuid@)),
        ]);
    }
    let obj = Json::Object(entries);
    match format {
        OutputFormat::Json | OutputFormat::Ndjson => Ok(to_json_text(&obj)),
        OutputFormat::Table => Ok(concat2("Terminated ", resource_uuid)),
        OutputFormat::Tsv => Ok(concat2("true\t", resource_uuid)),
        OutputFormat::Toon => match crate::output::toon_text(&obj) {
            Ok(t) => Ok(t),
            Err(m) => Err(OutputError { message: m }),
        },
    }
}

/// An order fails only in the states `erred`, `canceled` and `rejected`;
/// every other state that is not `done` (`pending-consumer`,
/// `pending-provider`, `executing`, ...) is still in flight, so a poll before
/// the deadline keeps waiting.
pub proof fn law_only_erred_canceled_rejected_fail(s: Seq<char>)
    ensures
        is_failure_state("erred"@),
        is_failure_state("canceled"@),
        is_failure_state("rejected"@),
        !is_failure_state("done"@),
        s != "erred"@ && s != "canceled"@ && s != "rejected"@ ==> !is_failure_state(s),
{
    reveal_strlit("done");
    reveal_strlit("erred");
    reveal_strlit("canceled");
    reveal_strlit("rejected");
    assert("done"@.len() == 4);
    assert("erred"@.len() == 5);
}

/// An explicit `project` in the order body always wins over the ambient
/// scope: the body is sent with its own project.
pub proof fn law_explicit_project_wins(
    e: Seq<(Seq<char>, JsonView)>,
    base_url: Seq<char>,
    uuid: Seq<char>,
)
    requires
        has_key(e, "project"@),
    ensures
        with_project(JsonView::Object(e), project_url(base_url, uuid)) == JsonView::Object(e),
{
}

/// Without a project in the body, the ambient one is filled in: the sent
/// object's `project` is the project URL, and every other field keeps its
/// value.
pub proof fn law_ambient_project_filled_in(
    e: Seq<(Seq<char>, JsonView)>,
    base_url: Seq<char>,
    uuid: Seq<char>,
    key: Seq<char>,
)
    requires
        !has_key(e, "project"@),
    ensures
        crate::json::field(
            with_project(JsonView::Object(e), project_url(base_url, uuid)),
            "project"@,
        ) == Some(JsonView::Str(project_url(base_url, uuid))),
        key != "project"@ ==> crate::json::field(
            with_project(JsonView::Object(e), project_url(base_url, uuid)),
            key,
        ) == lookup(e, key),
{
    lemma_lookup_push(e, "project"@, "project"@, JsonView::Str(project_url(base_url, uuid)));
    lemma_lookup_push(e, key, "project"@, JsonView::Str(project_url(base_url, uuid)));
}

} // verus!
