//! HomePort (Waldur's web UI) base URL for `get --web`: the
//! `--homeport-url` override if one was set, otherwise the `HOMEPORT_URL`
//! that Waldur's public `/api/configuration/` endpoint reports. Fetching
//! that endpoint and opening a browser are the caller's job.

use vstd::prelude::*;
use crate::json::{str_field, Json};
use crate::text::{owned, trim_end_char, trim_trailing};

verus! {

/// The public endpoint that reports HomePort's URL.
pub const CONFIGURATION_PATH: &'static str = "/api/configuration/";

/// The process's HomePort override. It can be set once (from
/// `--homeport-url`/`WALDUR_HOMEPORT_URL`, possibly to "none"); later
/// settings have no effect.
#[derive(Debug)]
pub struct HomeportOverride {
    value: Option<Option<String>>,
}

impl View for HomeportOverride {
    type V = Option<Option<Seq<char>>>;

    closed spec fn view(&self) -> Option<Option<Seq<char>>> {
        match self.value {
            Some(Some(s)) => Some(Some(s@)),
            Some(None) => Some(None),
            None => None,
        }
    }
}

impl HomeportOverride {
    /// An override that has not been set.
    pub fn new() -> (r: HomeportOverride)
        ensures
            r@ == None::<Option<Seq<char>>>,
    {
        HomeportOverride { value: None }
    }
}

/// Records the override, unless one was already recorded.
pub fn set_override(ovr: &mut HomeportOverride, url: Option<String>)
    ensures
        final(ovr)@ == (match old(ovr)@ {
            Some(v) => Some(v),
            None => Some(
                match url {
                    Some(s) => Some(s@),
                    None => None,
                },
            ),
        }),
{
    if ovr.value.is_none() {
        ovr.value = Some(url);
    }
}

/// The overriding URL without trailing slashes, when an override URL was
/// recorded; `None` means HomePort's URL must be fetched.
pub fn override_url(ovr: &HomeportOverride) -> (r: Option<String>)
    ensures
        match ovr@ {
            Some(Some(u)) => r matches Some(t) && t@ == trim_end_char(u, '/'),
            _ => r is None,
        },
{
    match &ovr.value {
        Some(Some(u)) => Some(trim_trailing(u.as_str(), '/')),
        _ => None,
    }
}

/// Why HomePort's URL could not be resolved.
#[derive(Debug)]
pub enum WebError {
    /// The configuration response has no string `HOMEPORT_URL`.
    NoHomeportUrl,
}

impl WebError {
    /// The error's text.
    pub fn message(&self) -> (r: String)
        ensures
            r@ == "Waldur's /api/configuration/ response has no HOMEPORT_URL -- pass --homeport-url explicitly"@,
    {
        owned(
            "Waldur's /api/configuration/ response has no HOMEPORT_URL -- pass --homeport-url explicitly",
        )
    }
}

/// HomePort's URL from a `/api/configuration/` response: its
/// `HOMEPORT_URL` string without trailing slashes.
pub fn homeport_url_from_config(config: &Json) -> (r: Result<String, WebError>)
    ensures
        match str_field(config@, "HOMEPORT_URL"@) {
            Some(u) => r matches Ok(t) && t@ == trim_end_char(u, '/'),
            None => r is Err,
        },
{
    match config.str_field("HOMEPORT_URL") {
        Some(u) => Ok(trim_trailing(u.as_str(), '/')),
        None => Err(WebError::NoHomeportUrl),
    }
}

} // verus!
