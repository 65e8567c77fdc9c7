//! The interactive-only progress spinner shown on stderr while an order or
//! a `wait` condition is polled. It is enabled only when stderr is a
//! terminal and `--debug` is off; a disabled spinner produces no output.
//! The spinner decides what to draw; writing it to stderr is the caller's
//! job.

use vstd::prelude::*;
use crate::text::{concat2, concat3, decimal, owned, u64_text};

verus! {

/// The process's `--debug` setting, as the spinner sees it.
#[derive(Debug)]
pub struct ProgressSettings {
    debug: bool,
}

impl View for ProgressSettings {
    type V = bool;

    closed spec fn view(&self) -> bool {
        self.debug
    }
}

impl ProgressSettings {
    /// Settings with `--debug` off.
    pub fn new() -> (r: ProgressSettings)
        ensures
            r@ == false,
    {
        ProgressSettings { debug: false }
    }
}

/// Records whether `--debug` is on.
pub fn set_debug(settings: &mut ProgressSettings, on: bool)
    ensures
        final(settings)@ == on,
{
    settings.debug = on;
}

/// Whether `--debug` is on.
pub fn debug_enabled(settings: &ProgressSettings) -> (r: bool)
    ensures
        r == settings@,
{
    settings.debug
}

/// The number of animation frames.
pub const FRAME_COUNT: usize = 10;

/// The `i`-th animation frame.
pub open spec fn spinner_frame(i: int) -> Seq<char> {
    if i == 0 {
        "⠋"@
    } else if i == 1 {
        "⠙"@
    } else if i == 2 {
        "⠹"@
    } else if i == 3 {
        "⠸"@
    } else if i == 4 {
        "⠼"@
    } else if i == 5 {
        "⠴"@
    } else if i == 6 {
        "⠦"@
    } else if i == 7 {
        "⠧"@
    } else if i == 8 {
        "⠇"@
    } else {
        "⠏"@
    }
}

fn frame(i: usize) -> (r: &'static str)
    ensures
        r@ == spinner_frame(i as int),
{
    if i == 0 {
        "⠋"
    } else if i == 1 {
        "⠙"
    } else if i == 2 {
        "⠹"
    } else if i == 3 {
        "⠸"
    } else if i == 4 {
        "⠼"
    } else if i == 5 {
        "⠴"
    } else if i == 6 {
        "⠦"
    } else if i == 7 {
        "⠧"
    } else if i == 8 {
        "⠇"
    } else {
        "⠏"
    }
}

/// Returns to column 0 and clears the line.
pub open spec fn clear_line() -> Seq<char> {
    "\r\x1b[2K"@
}

/// The line drawn for frame `i`: e.g. `⠹ Provisioning… 42s (executing)`.
pub open spec fn spinner_line(i: int, label: Seq<char>, secs: u64, state: Seq<char>) -> Seq<char> {
    clear_line() + spinner_frame(i) + " "@ + label + "… "@ + decimal(secs as nat) + "s ("@ + state
        + ")"@
}

/// A single-line spinner redrawn in place.
#[derive(Debug)]
pub struct Spinner {
    enabled: bool,
    i: usize,
    label: String,
}

/// The mathematical value of a [`Spinner`].
pub struct SpinnerView {
    pub enabled: bool,
    /// The frame the next tick draws.
    pub frame: int,
    pub label: Seq<char>,
}

impl View for Spinner {
    type V = SpinnerView;

    closed spec fn view(&self) -> SpinnerView {
        SpinnerView { enabled: self.enabled, frame: self.i as int, label: self.label@ }
    }
}

impl Spinner {
    /// The invariant: the next frame is one of the ten.
    pub closed spec fn wf(&self) -> bool {
        self.i < FRAME_COUNT
    }

    /// A spinner that draws only when stderr is a terminal and `--debug` is
    /// off.
    pub fn new(label: &str, stderr_is_terminal: bool, settings: &ProgressSettings) -> (r: Spinner)
        ensures
            r.wf(),
            r@ == (SpinnerView {
                enabled: stderr_is_terminal && !settings@,
                frame: 0,
                label: label@,
            }),
    {
        Spinner { enabled: stderr_is_terminal && !debug_enabled(settings), i: 0, label: owned(label) }
    }

    /// Advances one frame and returns the text to draw, showing the elapsed
    /// seconds and the last-known state; `None` (and no change) when
    /// disabled.
    pub fn tick(&mut self, elapsed_secs: u64, state: &str) -> (r: Option<String>)
        requires
            old(self).wf(),
        ensures
            final(self).wf(),
            !old(self)@.enabled ==> r is None && final(self)@ == old(self)@,
            old(self)@.enabled ==> (r matches Some(t) && t@ == spinner_line(
                old(self)@.frame,
                old(self)@.label,
                elapsed_secs,
                state@,
            )),
            old(self)@.enabled ==> final(self)@ == (SpinnerView {
                frame: (old(self)@.frame + 1) % (FRAME_COUNT as int),
                ..old(self)@
            }),
    {
        if !self.enabled {
            return None;
        }
        let f = frame(self.i);
        self.i = (self.i + 1) % FRAME_COUNT;
        let a = concat3("\r\x1b[2K", f, " ");
        let b = concat3(a.as_str(), self.label.as_str(), "… ");
        let secs = u64_text(elapsed_secs);
        let c = concat3(b.as_str(), secs.as_str(), "s (");
        Some(concat3(c.as_str(), state, ")"))
    }

    /// The text that erases the spinner line; `None` when disabled.
    pub fn clear(&self) -> (r: Option<String>)
        ensures
            !self@.enabled ==> r is None,
            self@.enabled ==> (r matches Some(t) && t@ == clear_line()),
    {
        if self.enabled {
            Some(owned("\r\x1b[2K"))
        } else {
            None
        }
    }
}

} // verus!
