//! Single-request transport decisions: the per-request timeout and retry
//! budget (set once per process), the `Authorization` header, which client a
//! method is sent through, and how a response's status and body become the
//! call's result. Sending the request itself is the caller's job.

use vstd::prelude::*;
use crate::api::HttpMethod;
use crate::json::{json_parse, parse_json, Json, JsonView};
use crate::text::{chars_of, concat2, concat3, concat4, decimal, owned, trim, trim_str};

verus! {

/// Per-request wall-clock cap, in seconds, when none was configured.
pub const DEFAULT_HTTP_TIMEOUT_SECS: u64 = 60;

/// Retries of a replayable request after a transient failure, when none
/// was configured.
pub const DEFAULT_MAX_RETRIES: u32 = 3;

/// The transport knobs of a process: each may be set once (from
/// `--http-timeout`/`--max-retries` or their environment variables); a
/// second setting of an already-set knob has no effect.
#[derive(Debug)]
pub struct TransportSettings {
    timeout_secs: Option<u64>,
    max_retries: Option<u32>,
}

impl View for TransportSettings {
    type V = (Option<u64>, Option<u32>);

    closed spec fn view(&self) -> (Option<u64>, Option<u32>) {
        (self.timeout_secs, self.max_retries)
    }
}

impl TransportSettings {
    /// Settings with neither knob set.
    pub fn new() -> (r: TransportSettings)
        ensures
            r@ == (None::<u64>, None::<u32>),
    {
        TransportSettings { timeout_secs: None, max_retries: None }
    }
}

/// Sets each knob that is given and not already set.
pub fn set_transport_options(
    settings: &mut TransportSettings,
    timeout_secs: Option<u64>,
    max_retries: Option<u32>,
)
    ensures
        final(settings)@.0 == (if old(settings)@.0 is None {
            timeout_secs
        } else {
            old(settings)@.0
        }),
        final(settings)@.1 == (if old(settings)@.1 is None {
            max_retries
        } else {
            old(settings)@.1
        }),
{
    if let Some(secs) = timeout_secs {
        if settings.timeout_secs.is_none() {
            settings.timeout_secs = Some(secs);
        }
    }
    if let Some(n) = max_retries {
        if settings.max_retries.is_none() {
            settings.max_retries = Some(n);
        }
    }
}

/// The per-request timeout in seconds: the configured one, else 60.
pub fn timeout_secs(settings: &TransportSettings) -> (r: u64)
    ensures
        r == (match settings@.0 {
            Some(t) => t,
            None => DEFAULT_HTTP_TIMEOUT_SECS,
        }),
{
    match settings.timeout_secs {
        Some(t) => t,
        None => DEFAULT_HTTP_TIMEOUT_SECS,
    }
}

/// The retry budget for replayable requests: the configured one, else 3.
pub fn max_retries(settings: &TransportSettings) -> (r: u32)
    ensures
        r == (match settings@.1 {
            Some(n) => n,
            None => DEFAULT_MAX_RETRIES,
        }),
{
    match settings.max_retries {
        Some(n) => n,
        None => DEFAULT_MAX_RETRIES,
    }
}

/// A `u64` transport setting: the flag when given, else the environment
/// variable when it parses (a malformed value is ignored, not fatal).
pub fn u64_setting(flag: Option<u64>, env: Option<&str>) -> (r: Option<u64>)
    ensures
        r == (match flag {
            Some(v) => Some(v),
            None => match env {
                Some(e) => match crate::text::parse_u64_spec(e@) {
                    Some(v) => Some(v as u64),
                    None => None,
                },
                None => None,
            },
        }),
{
    match flag {
        Some(v) => Some(v),
        None => match env {
            Some(e) => crate::text::parse_u64(e),
            None => None,
        },
    }
}

/// A `u32` transport setting: the flag when given, else the environment
/// variable when it parses (a malformed value is ignored, not fatal).
pub fn u32_setting(flag: Option<u32>, env: Option<&str>) -> (r: Option<u32>)
    ensures
        r == (match flag {
            Some(v) => Some(v),
            None => match env {
                Some(e) => match crate::text::parse_u32_spec(e@) {
                    Some(v) => Some(v as u32),
                    None => None,
                },
                None => None,
            },
        }),
{
    match flag {
        Some(v) => Some(v),
        None => match env {
            Some(e) => crate::text::parse_u32(e),
            None => None,
        },
    }
}

/// Whether a token is a Personal Access Token (it starts with `w_`).
pub open spec fn is_personal_access_token(token: Seq<char>) -> bool {
    token.len() >= 2 && token[0] == 'w' && token[1] == '_'
}

/// The `Authorization` header value for `token`.
pub open spec fn auth_header(token: Seq<char>) -> Seq<char> {
    if is_personal_access_token(token) {
        "Bearer "@ + token
    } else {
        "Token "@ + token
    }
}

/// Builds the `Authorization` header value for `token`. Personal Access
/// Tokens (prefix `w_`) authenticate via `Bearer`; every other token is a
/// classic token sent as `Token`.
pub fn auth_header_value(token: &str) -> (r: String)
    ensures
        r@ == auth_header(token@),
{
    let cs = chars_of(token);
    if cs.len() >= 2 && cs[0] == 'w' && cs[1] == '_' {
        concat2("Bearer ", token)
    } else {
        concat2("Token ", token)
    }
}

/// Whether a request with this method goes through the retrying client.
/// GET/PUT/DELETE (and the other idempotent methods) can be replayed
/// safely; POST/PATCH cannot, since a retried order could be placed twice.
pub fn uses_retrying_client(method: &HttpMethod) -> (r: bool)
    ensures
        r == crate::api::is_idempotent_token(method@),
{
    method.is_idempotent()
}

/// The URL of `path` on the API at `base_url`.
pub fn request_url(base_url: &str, path: &str) -> (r: String)
    ensures
        r@ == base_url@ + path@,
{
    concat2(base_url, path)
}

/// Whether a status code reports success (`200..=299`).
pub open spec fn is_success(status: u16) -> bool {
    200 <= status && status < 300
}

/// The canonical reason phrase of a status code as its `Display` shows it
/// (`canonical_reason()`, or `<unknown status code>` when it has none).
pub uninterp spec fn status_reason(status: u16) -> Seq<char>;

/// What the `Display` of an HTTP status code prints: the code, a space, and
/// its reason phrase.
pub open spec fn status_line(status: u16) -> Seq<char> {
    decimal(status as nat) + " "@ + status_reason(status)
}

/// The `Display` text of `reqwest::StatusCode::from_u16(status)`: the code's
/// digits, a space and the reason phrase; the reason-phrase table is not
/// restated, only named.
#[verifier::external_body]
pub fn status_text(status: u16) -> (r: String)
    requires
        100 <= status <= 999,
    ensures
        r@ == decimal(status as nat) + " "@ + status_reason(status),
{
    reqwest::StatusCode::from_u16(status).map(|s| s.to_string()).unwrap_or_default()
}

/// Why a single request produced no value.
#[derive(Debug)]
pub enum HttpError {
    /// The request could not be sent or got no response.
    Send { method: String, path: String },
    /// The response body could not be read.
    Read { method: String, path: String },
    /// The server answered with a non-success status.
    Api { status: String, body: String },
    /// The response body is not JSON (holds the parser's message).
    Parse { method: String, path: String, cause: String },
}

impl HttpError {
    /// The error's text.
    pub fn message(&self) -> (r: String)
        ensures
            self matches HttpError::Send { method, path } ==> r@ == method@ + " "@ + path@
                + " request failed"@,
            self matches HttpError::Read { method, path } ==> r@ == "failed to read "@ + method@
                + " "@ + path@ + " response body"@,
            self matches HttpError::Api { status, body } ==> r@ == "API error "@ + status@
                + ": "@ + body@,
            self matches HttpError::Parse { method, path, cause } ==> r@ == "failed to parse "@
                + method@ + " "@ + path@ + " response body: "@ + cause@,
    {
        match self {
            HttpError::Send { method, path } => {
                let a = concat3(method.as_str(), " ", path.as_str());
                concat2(a.as_str(), " request failed")
            },
            HttpError::Read { method, path } => {
                let a = concat4("failed to read ", method.as_str(), " ", path.as_str());
                concat2(a.as_str(), " response body")
            },
            HttpError::Api { status, body } => concat4("API error ", status.as_str(), ": ", body.as_str()),
            HttpError::Parse { method, path, cause } => {
                let a = concat4("failed to parse ", method.as_str(), " ", path.as_str());
                concat3(a.as_str(), " response body: ", cause.as_str())
            },
        }
    }
}

/// Why a response gave no value, by its views.
pub enum ResponseFailure {
    /// A non-success status: its display text and the body.
    Api(Seq<char>, Seq<char>),
    /// A body that is not JSON: method, path and the parser's message.
    Parse(Seq<char>, Seq<char>, Seq<char>),
}

/// What a response with `status` and `body` makes of a call of `method` on
/// `path`: an error carrying the status and body unless the status is a
/// success; `null` for a blank body (e.g. `204 No Content`); else the body's
/// JSON.
pub open spec fn response_result(
    method: Seq<char>,
    path: Seq<char>,
    status: u16,
    body: Seq<char>,
) -> Result<JsonView, ResponseFailure> {
    if !is_success(status) {
        Err(ResponseFailure::Api(status_line(status), body))
    } else if trim(body).len() == 0 {
        Ok(JsonView::Null)
    } else {
        match json_parse(body) {
            Ok(v) => Ok(v),
            Err(cause) => Err(ResponseFailure::Parse(method, path, cause)),
        }
    }
}

/// Interprets a response to one request.
pub fn read_response(method: &HttpMethod, path: &str, status: u16, body: &str) -> (r: Result<
    Json,
    HttpError,
>)
    requires
        100 <= status <= 999,
    ensures
        match (r, response_result(method@, path@, status, body@)) {
            (Ok(j), Ok(v)) => j@ == v,
            (Err(HttpError::Api { status: s, body: b }), Err(ResponseFailure::Api(es, eb))) => s@
                == es && b@ == eb,
            (
                Err(HttpError::Parse { method: m, path: p, cause: c }),
                Err(ResponseFailure::Parse(em, ep, ec)),
            ) => m@ == em && p@ == ep && c@ == ec,
            _ => false,
        },
{
    if !(200 <= status && status < 300) {
        return Err(HttpError::Api { status: status_text(status), body: owned(body) });
    }
    let t = trim_str(body);
    if t.as_str().is_empty() {
        return Ok(Json::Null);
    }
    match parse_json(body) {
        Ok(j) => Ok(j),
        Err(cause) => Err(
            HttpError::Parse { method: owned(method.as_str()), path: owned(path), cause },
        ),
    }
}

} // verus!
