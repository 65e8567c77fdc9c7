//! The `api` escape hatch: a raw call to any endpoint. What is decided here
//! is how the user's method and path are normalised and whether a request
//! body is read at all; sending the request is the caller's job.

use vstd::prelude::*;
use crate::text::{all_ascii, ascii_upper, chars_of, concat2, concat3, owned, to_uppercase, upper_text};
use crate::request::{load_body, load_body_spec, request_error_text, RequestError, RequestFile};

verus! {

/// Whether `c` may appear in an HTTP method token (RFC 9110 `tchar`).
pub open spec fn is_tchar(c: char) -> bool {
    ||| ('0' <= c && c <= '9')
    ||| ('A' <= c && c <= 'Z')
    ||| ('a' <= c && c <= 'z')
    ||| c == '!' || c == '#' || c == '$' || c == '%' || c == '&' || c == '\''
    ||| c == '*' || c == '+' || c == '-' || c == '.' || c == '^' || c == '_'
    ||| c == '`' || c == '|' || c == '~'
}

/// Whether `s` is a legal HTTP method: a non-empty run of token characters.
pub open spec fn is_method_token(s: Seq<char>) -> bool {
    s.len() > 0 && forall|i: int| 0 <= i < s.len() ==> is_tchar(#[trigger] s[i])
}

/// Whether requests with this method may be replayed safely: the safe
/// methods and `PUT`/`DELETE` (RFC 9110, as `http::Method::is_idempotent`
/// lists them).
pub open spec fn is_idempotent_token(s: Seq<char>) -> bool {
    ||| s == seq!['G', 'E', 'T']
    ||| s == seq!['H', 'E', 'A', 'D']
    ||| s == seq!['O', 'P', 'T', 'I', 'O', 'N', 'S']
    ||| s == seq!['T', 'R', 'A', 'C', 'E']
    ||| s == seq!['Q', 'U', 'E', 'R', 'Y']
    ||| s == seq!['P', 'U', 'T']
    ||| s == seq!['D', 'E', 'L', 'E', 'T', 'E']
}

/// An HTTP method, as the token that is sent on the wire.
#[derive(Debug)]
pub struct HttpMethod {
    token: String,
}

impl View for HttpMethod {
    type V = Seq<char>;

    closed spec fn view(&self) -> Seq<char> {
        self.token@
    }
}

impl HttpMethod {
    /// Whether this is a legal method token.
    pub closed spec fn wf(&self) -> bool {
        is_method_token(self.token@)
    }

    /// The method token.
    pub fn as_str(&self) -> (r: &str)
        ensures
            r@ == self@,
    {
        self.token.as_str()
    }

    /// `GET`.
    pub fn get() -> (r: HttpMethod)
        ensures
            r@ == seq!['G', 'E', 'T'],
            r.wf(),
    {
        let token = owned("GET");
        proof {
            reveal_strlit("GET");
        }
        HttpMethod { token }
    }

    /// `POST`.
    pub fn post() -> (r: HttpMethod)
        ensures
            r@ == seq!['P', 'O', 'S', 'T'],
            r.wf(),
    {
        let token = owned("POST");
        proof {
            reveal_strlit("POST");
        }
        HttpMethod { token }
    }

    /// Whether a request with this method may be retried
    /// (`http::Method::is_idempotent`).
    pub fn is_idempotent(&self) -> (r: bool)
        ensures
            r == is_idempotent_token(self@),
    {
        method_is_idempotent(self.token.as_str())
    }
}

/// `reqwest::Method::from_bytes` on the UTF-8 bytes of `token`, giving back
/// the method's text. Per the `http` crate's source it accepts exactly the
/// non-empty byte strings of token characters (so no non-ASCII text), and
/// `as_str` then returns those same bytes.
#[verifier::external_body]
fn method_from_bytes(token: &str) -> (r: Option<String>)
    ensures
        r is Some <==> is_method_token(token@),
        r matches Some(t) ==> t@ == token@,
{
    reqwest::Method::from_bytes(token.as_bytes()).ok().map(|m| m.as_str().to_string())
}

/// `reqwest::Method::is_idempotent` for the method with this token (`false`
/// for a token that is not a method). Per the `http` crate's source, the
/// idempotent methods are GET, HEAD, OPTIONS, TRACE, QUERY, PUT and DELETE.
#[verifier::external_body]
fn method_is_idempotent(token: &str) -> (r: bool)
    ensures
        r == is_idempotent_token(token@),
{
    reqwest::Method::from_bytes(token.as_bytes()).map(|m| m.is_idempotent()).unwrap_or(false)
}

/// Why an `api` call was refused before any request was sent.
#[derive(Debug)]
pub enum ApiError {
    /// The method is not a legal HTTP token (holds the text as given).
    InvalidMethod(String),
    /// The request body could not be loaded.
    Body(RequestError),
}

impl ApiError {
    /// The error's text.
    pub fn message(&self) -> (r: String)
        ensures
            self matches ApiError::InvalidMethod(raw) ==> r@ == seq!['`'] + raw@
                + "` is not a valid HTTP method"@,
            self matches ApiError::Body(e) ==> r@ == request_error_text(e@),
    {
        match self {
            ApiError::InvalidMethod(raw) => {
                let r = concat3("`", raw.as_str(), "` is not a valid HTTP method");
                proof {
                    reveal_strlit("`");
                }
                r
            },
            ApiError::Body(e) => e.message(),
        }
    }
}

/// Normalises a user-supplied method (case-insensitively) into the token to
/// send. It is refused only when it is not a legal HTTP token at all, never
/// for being a method the server may not know.
pub fn parse_method(raw: &str) -> (r: Result<HttpMethod, ApiError>)
    ensures
        match r {
            Ok(m) => m@ == upper_text(raw@) && is_method_token(m@) && m.wf(),
            Err(e) => !is_method_token(upper_text(raw@)) && (e matches ApiError::InvalidMethod(
                s,
            ) && s@ == raw@),
        },
        all_ascii(raw@) ==> match r {
            Ok(m) => m@ == ascii_upper(raw@),
            Err(_) => !is_method_token(ascii_upper(raw@)),
        },
{
    let upper = to_uppercase(raw);
    match method_from_bytes(upper.as_str()) {
        Some(token) => Ok(HttpMethod { token }),
        None => Err(ApiError::InvalidMethod(owned(raw))),
    }
}

/// `raw` with a leading `/` added when it has none.
pub open spec fn normalized_path(raw: Seq<char>) -> Seq<char> {
    if raw.len() > 0 && raw[0] == '/' {
        raw
    } else {
        seq!['/'] + raw
    }
}

/// A path relative to the API base: adds a leading slash if missing, so
/// both `/api/customers/` and `api/customers/` work.
pub fn normalize_path(raw: &str) -> (r: String)
    ensures
        r@ == normalized_path(raw@),
{
    let cs = chars_of(raw);
    if cs.len() > 0 && cs[0] == '/' {
        owned(raw)
    } else {
        let r = concat2("/", raw);
        proof {
            reveal_strlit("/");
        }
        r
    }
}

/// Both `/api/customers/` and `api/customers/` reach the same endpoint, and
/// normalising an already-normalised path changes nothing.
pub proof fn law_leading_slash_optional(raw: Seq<char>)
    ensures
        raw.len() == 0 || raw[0] != '/' ==> normalized_path(raw) == normalized_path(
            seq!['/'] + raw,
        ),
        normalized_path(normalized_path(raw)) == normalized_path(raw),
{
    assert((seq!['/'] + raw)[0] == '/');
}

/// The body an `api` call sends: none when neither an inline body nor a
/// file was given, otherwise what [`load_body`] makes of them.
pub fn optional_body(inline: Option<&str>, file: Option<&RequestFile>) -> (r: Result<
    Option<String>,
    ApiError,
>)
    ensures
        (inline is None && file is None) ==> r matches Ok(None),
        !(inline is None && file is None) ==> match (r, load_body_spec(
            inline,
            file,
        )) {
            (Ok(Some(b)), Ok(s)) => b@ == s,
            (Err(ApiError::Body(e)), Err(f)) => e@ == f,
            _ => false,
        },
{
    if inline.is_none() && file.is_none() {
        Ok(None)
    } else {
        match load_body(inline, file) {
            Ok(b) => Ok(Some(b)),
            Err(e) => Err(ApiError::Body(e)),
        }
    }
}

} // verus!
