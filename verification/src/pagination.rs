//! Auto-pagination for `list` endpoints, as a state machine: which page to
//! request next (with what page size), how many of a page's items may still
//! be handed on under `--limit`, when the complete result set has been
//! fetched (Waldur's `X-Result-Count` header gives the total), and what a
//! failure partway through reports. Sending the requests and handing items
//! on are the caller's job.

use vstd::prelude::*;
use crate::api::{is_idempotent_token, HttpMethod};
use crate::json::{json_array_parse, parse_json_array, Json, JsonView};
use crate::text::{concat2, concat3, concat4, decimal, i64_text, int_decimal, owned, parse_i64, parse_i64_spec};

verus! {

/// The largest page the server serves; asked for to minimise round trips.
pub const MAX_PAGE_SIZE: i64 = 300;

/// A hard stop for a runaway fetch (a reported total that is never
/// reached): 10,000 pages of 300 items is far beyond any real result set.
pub const MAX_PAGES: i64 = 10000;

/// The progress of a paginated fetch.
#[derive(Debug)]
pub struct Pager {
    limit: Option<i64>,
    sent: i64,
    page: i64,
    total: Option<i64>,
    page_size: i64,
}

/// The mathematical value of a [`Pager`].
pub struct PagerView {
    /// `--limit`, if given.
    pub limit: Option<int>,
    /// Items handed on so far.
    pub sent: int,
    /// The page to request next (1-based).
    pub page: int,
    /// The total the server reported, once known.
    pub total: Option<int>,
    /// The page size asked for.
    pub page_size: int,
}

/// The view of an optional integer.
pub open spec fn oi(o: Option<i64>) -> Option<int> {
    match o {
        Some(x) => Some(x as int),
        None => None,
    }
}

impl View for Pager {
    type V = PagerView;

    closed spec fn view(&self) -> PagerView {
        PagerView {
            limit: oi(self.limit),
            sent: self.sent as int,
            page: self.page as int,
            total: oi(self.total),
            page_size: self.page_size as int,
        }
    }
}

/// The page size for a limit: the limit when it is below the largest page,
/// else the largest page.
pub open spec fn page_size_for(limit: Option<int>) -> int {
    match limit {
        Some(l) => if l < MAX_PAGE_SIZE {
            l
        } else {
            MAX_PAGE_SIZE as int
        },
        None => MAX_PAGE_SIZE as int,
    }
}

/// Whether an item may still be handed on: there is no limit, or fewer
/// than `limit` items were handed on.
pub open spec fn under_limit(p: PagerView) -> bool {
    match p.limit {
        Some(l) => p.sent < l,
        None => true,
    }
}

/// What follows a fully processed page.
#[derive(Debug)]
pub enum PageStep {
    /// The fetch is complete.
    Finished,
    /// Request the next page.
    Next,
    /// The page cap was reached without reaching the reported total.
    TooManyPages,
}

/// Why a paginated fetch failed; each variant reports how far it got.
#[derive(Debug)]
pub enum PaginationError {
    /// A page request could not be sent.
    Send { page: i64, sent: i64 },
    /// The server answered a page request with a non-success status.
    Status { status: String, page: i64, sent: i64, total: Option<i64>, body: String },
    /// A page body could not be read.
    Read { page: i64, sent: i64 },
    /// A page body is not a JSON array (holds the parser's message).
    Parse { page: i64, sent: i64, cause: String },
    /// The page cap was reached.
    TooManyPages { sent: i64, total: Option<i64> },
}

/// `Debug` of an `Option<i64>`: `Some(n)` or `None`.
pub open spec fn debug_total(total: Option<i64>) -> Seq<char> {
    match total {
        Some(t) => "Some("@ + int_decimal(t as int) + ")"@,
        None => "None"@,
    }
}

/// How many items a failure reports as fetched: `sent of total` once the
/// total is known, else `sent`.
pub open spec fn progress_text(sent: i64, total: Option<i64>) -> Seq<char> {
    match total {
        Some(t) => int_decimal(sent as int) + " of "@ + int_decimal(t as int),
        None => int_decimal(sent as int),
    }
}

impl PaginationError {
    /// The error's text.
    pub fn message(&self) -> (r: String)
        ensures
            self matches PaginationError::Send { page, sent } ==> r@
                == "pagination request failed on page "@ + int_decimal(*page as int) + " (fetched "@
                + int_decimal(*sent as int) + " item(s) before this)"@,
            self matches PaginationError::Status { status, page, sent, total, body } ==> r@
                == "API error "@ + status@ + " on page "@ + int_decimal(*page as int)
                + " (fetched "@ + progress_text(*sent, *total) + " item(s) before this failed): "@
                + body@,
            self matches PaginationError::Read { page, sent } ==> r@ == "failed to read page "@
                + int_decimal(*page as int) + " body (fetched "@ + int_decimal(*sent as int)
                + " item(s) before this)"@,
            self matches PaginationError::Parse { page, sent, cause } ==> r@
                == "failed to parse page "@ + int_decimal(*page as int) + " body (fetched "@
                + int_decimal(*sent as int) + " item(s) before this): "@ + cause@,
            self matches PaginationError::TooManyPages { sent, total } ==> r@
                == "stopped after 10000 pages ("@ + int_decimal(*sent as int)
                + " items) without reaching the reported total ("@ + debug_total(*total)
                + ") -- this looks like a server or client bug rather than a real result set"@,
    {
        match self {
            PaginationError::Send { page, sent } => {
                let p = i64_text(*page);
                let s = i64_text(*sent);
                let a = concat4("pagination request failed on page ", p.as_str(), " (fetched ", s.as_str());
                concat2(a.as_str(), " item(s) before this)")
            },
            PaginationError::Status { status, page, sent, total, body } => {
                let p = i64_text(*page);
                let s = i64_text(*sent);
                let progress = match total {
                    Some(t) => {
                        let tt = i64_text(*t);
                        concat3(s.as_str(), " of ", tt.as_str())
                    },
                    None => s,
                };
                let a = concat4("API error ", status.as_str(), " on page ", p.as_str());
                let b = concat3(a.as_str(), " (fetched ", progress.as_str());
                concat3(b.as_str(), " item(s) before this failed): ", body.as_str())
            },
            PaginationError::Read { page, sent } => {
                let p = i64_text(*page);
                let s = i64_text(*sent);
                let a = concat4("failed to read page ", p.as_str(), " body (fetched ", s.as_str());
                concat2(a.as_str(), " item(s) before this)")
            },
            PaginationError::Parse { page, sent, cause } => {
                let p = i64_text(*page);
                let s = i64_text(*sent);
                let a = concat4("failed to parse page ", p.as_str(), " body (fetched ", s.as_str());
                concat3(a.as_str(), " item(s) before this): ", cause.as_str())
            },
            PaginationError::TooManyPages { sent, total } => {
                let s = i64_text(*sent);
                let t = match total {
                    Some(t) => {
                        let tt = i64_text(*t);
                        concat3("Some(", tt.as_str(), ")")
                    },
                    None => owned("None"),
                };
                let a = concat3("stopped after 10000 pages (", s.as_str(), " items) without reaching the reported total (");
                concat3(
                    a.as_str(),
                    t.as_str(),
                    ") -- this looks like a server or client bug rather than a real result set",
                )
            },
        }
    }
}

impl Pager {
    /// The invariant: at least one item is wanted overall, no more than
    /// `limit` items have been handed on, the page to request is within
    /// the page cap, and the page size fits the limit.
    pub closed spec fn wf(&self) -> bool {
        &&& self.limit matches Some(l) ==> 0 < l && self.sent <= l
        &&& 0 <= self.sent
        &&& 1 <= self.page <= MAX_PAGES
        &&& self.page_size == page_size_for(oi(self.limit))
    }

    /// Starts a fetch, or `None` when a zero or negative `--limit` means no
    /// request is needed at all.
    pub fn start(limit: Option<i64>) -> (r: Option<Pager>)
        ensures
            (limit matches Some(l) && l <= 0) <==> r is None,
            r matches Some(p) ==> p.wf() && p@ == (PagerView {
                limit: oi(limit),
                sent: 0,
                page: 1,
                total: None,
                page_size: page_size_for(oi(limit)),
            }),
    {
        if let Some(l) = limit {
            if l <= 0 {
                return None;
            }
        }
        let page_size = match limit {
            Some(l) => if l < MAX_PAGE_SIZE {
                l
            } else {
                MAX_PAGE_SIZE
            },
            None => MAX_PAGE_SIZE,
        };
        Some(Pager { limit, sent: 0, page: 1, total: None, page_size })
    }

    /// The query parameters of the next page request: the caller's filters,
    /// then `page` and `page_size`, which this pager controls.
    pub fn page_params(&self, base: &[(String, String)]) -> (r: Vec<(String, String)>)
        ensures
            r@.len() == base@.len() + 2,
            forall|i: int|
                0 <= i < base@.len() ==> (#[trigger] r@[i]).0@ == base@[i].0@ && r@[i].1@
                    == base@[i].1@,
            r@[base@.len() as int].0@ == "page"@,
            r@[base@.len() as int].1@ == int_decimal(self@.page),
            r@[base@.len() as int + 1].0@ == "page_size"@,
            r@[base@.len() as int + 1].1@ == int_decimal(self@.page_size),
    {
        let mut out: Vec<(String, String)> = Vec::new();
        let mut i: usize = 0;
        while i < base.len()
            invariant
                i <= base@.len(),
                out@.len() == i,
                forall|k: int|
                    0 <= k < i ==> (#[trigger] out@[k]).0@ == base@[k].0@ && out@[k].1@
                        == base@[k].1@,
            decreases base@.len() - i,
        {
            out.push((base[i].0.clone(), base[i].1.clone()));
            i = i + 1;
        }
        out.push((owned("page"), i64_text(self.page)));
        out.push((owned("page_size"), i64_text(self.page_size)));
        out
    }

    /// Records the `X-Result-Count` header of a page (its text, if it had
    /// one that is visible ASCII); once a count has been recorded, later
    /// headers are ignored.
    pub fn note_total(&mut self, header: Option<&str>)
        requires
            old(self).wf(),
        ensures
            final(self).wf(),
            final(self)@ == (PagerView {
                total: match old(self)@.total {
                    Some(t) => Some(t),
                    None => match header {
                        Some(h) => parse_i64_spec(h@),
                        None => None,
                    },
                },
                ..old(self)@
            }),
    {
        if self.total.is_none() {
            self.total = match header {
                Some(h) => parse_i64(h),
                None => None,
            };
        }
    }

    /// Whether another item may be handed on.
    pub fn wants_item(&self) -> (r: bool)
        ensures
            r == under_limit(self@),
    {
        match self.limit {
            Some(l) => self.sent < l,
            None => true,
        }
    }

    /// Records that an item was handed on.
    pub fn item_sent(&mut self)
        requires
            old(self).wf(),
            under_limit(old(self)@),
            old(self)@.sent < i64::MAX,
        ensures
            final(self).wf(),
            final(self)@ == (PagerView { sent: old(self)@.sent + 1, ..old(self)@ }),
    {
        self.sent = self.sent + 1;
    }

    /// How many items a page of `got` items hands on: all of them, or as
    /// many as the limit still allows.
    pub open spec fn quota(p: PagerView, got: int) -> int {
        match p.limit {
            Some(l) => if l - p.sent < got {
                l - p.sent
            } else {
                got
            },
            None => got,
        }
    }

    /// The items of a page to hand on, in order: its first items, as many as
    /// the limit still allows (all of them without a limit). They are
    /// counted as handed on.
    pub fn take_page(&mut self, items: Vec<Json>) -> (r: Vec<Json>)
        requires
            old(self).wf(),
            old(self)@.sent + items@.len() <= i64::MAX,
        ensures
            final(self).wf(),
            0 <= Self::quota(old(self)@, items@.len() as int) <= items@.len(),
            r@ == items@.take(Self::quota(old(self)@, items@.len() as int)),
            final(self)@ == (PagerView {
                sent: old(self)@.sent + Self::quota(old(self)@, items@.len() as int),
                ..old(self)@
            }),
    {
        let ghost given = items@;
        let mut items = items;
        let n = items.len();
        let k: usize = match self.limit {
            Some(l) => {
                let room: i64 = l - self.sent;
                if (room as i128) < (n as i128) {
                    room as usize
                } else {
                    n
                }
            },
            None => n,
        };
        items.truncate(k);
        self.sent = self.sent + k as i64;
        assert(items@ =~= given.take(k as int));
        items
    }

    /// Items handed on so far.
    pub fn sent(&self) -> (r: i64)
        ensures
            r as int == self@.sent,
    {
        self.sent
    }

    /// Decides what follows a page of `got` items once its items were
    /// handed on: finished when the limit is reached, when the reported
    /// total is reached (or, with no total, when the page came back short),
    /// or when the page was empty; otherwise the next page, unless the page
    /// cap is reached.
    pub fn finish_page(&mut self, got: usize) -> (r: PageStep)
        requires
            old(self).wf(),
            got <= i64::MAX,
        ensures
            final(self).wf(),
            ({
                let p = old(self)@;
                let limit_reached = match p.limit {
                    Some(l) => p.sent >= l,
                    None => false,
                };
                let done = match p.total {
                    Some(t) => p.sent >= t,
                    None => got < p.page_size,
                };
                if limit_reached || done || got == 0 {
                    r matches PageStep::Finished && final(self)@ == p
                } else if p.page + 1 > MAX_PAGES {
                    r matches PageStep::TooManyPages && final(self)@ == p
                } else {
                    r matches PageStep::Next && final(self)@ == (PagerView { page: p.page + 1, ..p })
                }
            }),
    {
        if let Some(l) = self.limit {
            if self.sent >= l {
                return PageStep::Finished;
            }
        }
        let got_i: i64 = got as i64;
        let done = match self.total {
            Some(t) => self.sent >= t,
            None => got_i < self.page_size,
        };
        if done || got == 0 {
            return PageStep::Finished;
        }
        if self.page + 1 > MAX_PAGES {
            return PageStep::TooManyPages;
        }
        self.page = self.page + 1;
        PageStep::Next
    }

    /// The page to request next.
    pub fn page(&self) -> (r: i64)
        ensures
            r as int == self@.page,
    {
        self.page
    }

    /// The error for a page request that could not be sent.
    pub fn send_failed(&self) -> (r: PaginationError)
        ensures
            r matches PaginationError::Send { page, sent } && page == self@.page && sent
                == self@.sent,
    {
        PaginationError::Send { page: self.page, sent: self.sent }
    }

    /// The error for a page answered with a non-success status (`status`
    /// is its display text).
    pub fn status_failed(&self, status: String, body: String) -> (r: PaginationError)
        ensures
            r matches PaginationError::Status { status: s, page, sent, total, body: b } && s
                == status && page == self@.page && sent == self@.sent && oi(total) == self@.total
                && b == body,
    {
        PaginationError::Status { status, page: self.page, sent: self.sent, total: self.total, body }
    }

    /// The error for a page body that could not be read.
    pub fn read_failed(&self) -> (r: PaginationError)
        ensures
            r matches PaginationError::Read { page, sent } && page == self@.page && sent
                == self@.sent,
    {
        PaginationError::Read { page: self.page, sent: self.sent }
    }

    /// The error for a page body that is not a JSON array (`cause` is the
    /// parser's message).
    pub fn parse_failed(&self, cause: String) -> (r: PaginationError)
        ensures
            r matches PaginationError::Parse { page, sent, cause: c } && page == self@.page && sent
                == self@.sent && c == cause,
    {
        PaginationError::Parse { page: self.page, sent: self.sent, cause }
    }

    /// The error for reaching the page cap.
    pub fn too_many_pages(&self) -> (r: PaginationError)
        ensures
            r matches PaginationError::TooManyPages { sent, total } && sent == self@.sent && oi(
                total,
            ) == self@.total,
    {
        PaginationError::TooManyPages { sent: self.sent, total: self.total }
    }
}

/// The method of a page request: `GET`, which is idempotent, so page
/// requests go through the retrying client like any other replayable call.
pub fn page_method() -> (r: HttpMethod)
    ensures
        r@ == seq!['G', 'E', 'T'],
        r.wf(),
        is_idempotent_token(r@),
{
    HttpMethod::get()
}

/// Parses a page body into its items (the body must be a JSON array); the
/// error is the parser's message.
pub fn page_items(body: &str) -> (r: Result<Vec<Json>, String>)
    ensures
        match (r, json_array_parse(body@)) {
            (Ok(v), Ok(s)) => v@.map_values(|j: Json| j@) == s,
            (Err(e), Err(m)) => e@ == m,
            _ => false,
        },
{
    parse_json_array(body)
}

/// A page hands on its first `min(limit - sent, got)` items: while the
/// limit is not reached within the page, every item of the page is handed
/// on, just as without a limit; a page that would overshoot the limit hands
/// on exactly the items that reach it.
pub proof fn law_page_hands_on_until_the_limit(p: Pager, got: int)
    requires
        p.wf(),
        got >= 0,
    ensures
        (p@.limit is None || p@.sent + got <= p@.limit->0) ==> Pager::quota(p@, got) == got,
        p@.limit matches Some(l) ==> (p@.sent + got > l ==> Pager::quota(p@, got) == l - p@.sent
            && 0 <= Pager::quota(p@, got) < got),
        p@.limit matches Some(l) ==> p@.sent + Pager::quota(p@, got) <= l,
{
}

/// However the server answers, a fetch never hands on more items than
/// `--limit` allows and never requests a page beyond the page cap: both
/// hold of every state a pager can reach.
pub proof fn law_limit_and_page_cap(p: Pager)
    requires
        p.wf(),
    ensures
        p@.limit matches Some(l) ==> p@.sent <= l,
        1 <= p@.page <= MAX_PAGES,
        1 <= p@.page_size <= MAX_PAGE_SIZE,
        p@.limit matches Some(l) ==> p@.page_size <= l,
{
}

} // verus!
