//! `--query`/`--jmespath`: client-side reshaping of an already-fetched
//! result with a JMESPath expression (the `jmespath` crate does the work).

use vstd::prelude::*;
use crate::json::{json_from_serde, json_to_serde, Json, JsonView};
use crate::text::concat2;

verus! {

/// What compiling and evaluating a JMESPath expression gives.
pub enum JmesOutcome {
    /// The expression does not compile (holds the error's text).
    Invalid(Seq<char>),
    /// Evaluation failed (holds the error's text).
    Failed(Seq<char>),
    /// The result could not be turned back into JSON (holds the error's
    /// text).
    Unconvertible(Seq<char>),
    /// The result.
    Found(JsonView),
}

/// What `jmespath::compile(expr)` followed by `search(data)` and
/// `serde_json::to_value` of the result gives.
pub uninterp spec fn jmespath_outcome(expr: Seq<char>, data: JsonView) -> JmesOutcome;

enum JmesResult {
    Invalid(String),
    Failed(String),
    Unconvertible(String),
    Found(Json),
}

spec fn jmes_view(r: JmesResult) -> JmesOutcome {
    match r {
        JmesResult::Invalid(s) => JmesOutcome::Invalid(s@),
        JmesResult::Failed(s) => JmesOutcome::Failed(s@),
        JmesResult::Unconvertible(s) => JmesOutcome::Unconvertible(s@),
        JmesResult::Found(j) => JmesOutcome::Found(j@),
    }
}

/// `jmespath::compile(expr)`, then `Expression::search` on `data`, then
/// `serde_json::to_value` of the result. The contract names the outcome
/// only; the JMESPath language is not restated.
#[verifier::external_body]
fn run_jmespath(expr: &str, data: &Json) -> (r: JmesResult)
    ensures
        jmes_view(r) == jmespath_outcome(expr@, data@),
{
    let compiled = match jmespath::compile(expr) {
        Ok(c) => c,
        Err(e) => return JmesResult::Invalid(e.to_string()),
    };
    let found = match compiled.search(json_to_serde(data)) {
        Ok(v) => v,
        Err(e) => return JmesResult::Failed(e.to_string()),
    };
    match serde_json::to_value(&found) {
        Ok(v) => JmesResult::Found(json_from_serde(v)),
        Err(e) => JmesResult::Unconvertible(e.to_string()),
    }
}

/// Why `--query` produced no value.
#[derive(Debug)]
pub enum QueryError {
    /// The expression does not compile.
    Invalid(String),
    /// Evaluating the expression failed.
    Evaluation(String),
    /// The result could not be turned back into JSON (holds the error's
    /// text).
    Conversion(String),
}

impl QueryError {
    /// The error's text.
    pub fn message(&self) -> (r: String)
        ensures
            self matches QueryError::Invalid(e) ==> r@ == "invalid --query expression: "@ + e@,
            self matches QueryError::Evaluation(e) ==> r@ == "--query evaluation failed: "@ + e@,
            self matches QueryError::Conversion(e) ==> r@
                == "failed to convert --query result to JSON: "@ + e@,
    {
        match self {
            QueryError::Invalid(e) => concat2("invalid --query expression: ", e.as_str()),
            QueryError::Evaluation(e) => concat2("--query evaluation failed: ", e.as_str()),
            QueryError::Conversion(e) => concat2(
                "failed to convert --query result to JSON: ",
                e.as_str(),
            ),
        }
    }
}

/// Applies the JMESPath `expression` to `value`.
pub fn apply(value: Json, expression: &str) -> (r: Result<Json, QueryError>)
    ensures
        match (r, jmespath_outcome(expression@, value@)) {
            (Ok(j), JmesOutcome::Found(v)) => j@ == v,
            (Err(QueryError::Invalid(e)), JmesOutcome::Invalid(f)) => e@ == f,
            (Err(QueryError::Evaluation(e)), JmesOutcome::Failed(f)) => e@ == f,
            (Err(QueryError::Conversion(e)), JmesOutcome::Unconvertible(f)) => e@ == f,
            _ => false,
        },
{
    match run_jmespath(expression, &value) {
        JmesResult::Invalid(e) => Err(QueryError::Invalid(e)),
        JmesResult::Failed(e) => Err(QueryError::Evaluation(e)),
        JmesResult::Unconvertible(e) => Err(QueryError::Conversion(e)),
        JmesResult::Found(j) => Ok(j),
    }
}

} // verus!
