//! The generic `wait` verb: poll a resource every interval, evaluating a
//! JMESPath condition against each fetched value, until the condition is
//! met or the timeout elapses. The functions here decide each poll's
//! outcome; fetching, evaluating (see [`crate::query::apply`]), sleeping and
//! printing are the caller's.

use vstd::prelude::*;
use crate::json::{json_text, to_json_text, Json, JsonView};
use crate::text::{concat3, concat4, decimal, u64_text};

verus! {

/// Milliseconds between spinner frames while waiting.
pub const SPINNER_TICK_MILLIS: u64 = 100;

/// Whether a condition's value counts as met: anything but `false` and
/// `null`, so both a comparison (`state=='OK'`) and a presence check
/// (`resource_uuid`) work.
pub open spec fn is_met(v: JsonView) -> bool {
    v != JsonView::Null && v != JsonView::Bool(false)
}

/// Whether a condition's value counts as met.
pub fn condition_met(value: &Json) -> (r: bool)
    ensures
        r == is_met(value@),
{
    match value {
        Json::Null => false,
        Json::Bool(false) => false,
        _ => true,
    }
}

/// The seconds between polls: the requested interval, at least 1 (a 0
/// interval would otherwise poll once per spinner frame).
pub fn poll_interval_secs(interval_secs: u64) -> (r: u64)
    ensures
        r == (if interval_secs >= 1 {
            interval_secs
        } else {
            1
        }),
        r >= 1,
{
    if interval_secs >= 1 {
        interval_secs
    } else {
        1
    }
}

/// Why waiting stopped without the condition being met.
#[derive(Debug)]
pub enum WaitError {
    /// The timeout elapsed (holds the settings and the last condition
    /// value, as compact JSON).
    TimedOut { secs: u64, expression: String, path: String, last: String },
}

impl WaitError {
    /// The error's text.
    pub fn message(&self) -> (r: String)
        ensures
            self matches WaitError::TimedOut { secs, expression, path, last } ==> r@
                == "timed out after "@ + decimal(*secs as nat) + "s waiting for `"@ + expression@
                + "` on "@ + path@ + " (last value: "@ + last@
                + ") -- it may still become true; check again, or retry with a longer --timeout"@,
    {
        match self {
            WaitError::TimedOut { secs, expression, path, last } => {
                let s = u64_text(*secs);
                let a = concat4("timed out after ", s.as_str(), "s waiting for `", expression.as_str());
                let b = concat4(a.as_str(), "` on ", path.as_str(), " (last value: ");
                concat3(
                    b.as_str(),
                    last.as_str(),
                    ") -- it may still become true; check again, or retry with a longer --timeout",
                )
            },
        }
    }
}

/// What one poll concludes.
#[derive(Debug)]
pub enum WaitStep {
    /// The condition holds: show the fetched value and stop.
    Met,
    /// Keep polling (the spinner shows this label: the condition's value).
    Wait(String),
    /// Stop with this error.
    Stop(WaitError),
}

/// What a poll concludes from the condition's value: met, else timed out
/// once the deadline has passed, else wait.
pub fn wait_step(
    condition: &Json,
    deadline_passed: bool,
    expression: &str,
    path: &str,
    timeout_secs: u64,
) -> (r: WaitStep)
    ensures
        is_met(condition@) ==> r matches WaitStep::Met,
        !is_met(condition@) && deadline_passed ==> (r matches WaitStep::Stop(
            WaitError::TimedOut { secs, expression: e, path: p, last },
        ) && secs == timeout_secs && e@ == expression@ && p@ == path@ && last@ == json_text(
            condition@,
        )),
        !is_met(condition@) && !deadline_passed ==> (r matches WaitStep::Wait(label) && label@
            == json_text(condition@)),
{
    if condition_met(condition) {
        return WaitStep::Met;
    }
    let last = to_json_text(condition);
    if deadline_passed {
        WaitStep::Stop(
            WaitError::TimedOut {
                secs: timeout_secs,
                expression: crate::text::owned(expression),
                path: crate::text::owned(path),
                last,
            },
        )
    } else {
        WaitStep::Wait(last)
    }
}

} // verus!
