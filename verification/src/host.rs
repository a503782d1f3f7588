//! The vocabulary spoken between the shell's logic and the windowing host.
//!
//! The logic never touches a window. It asks the host for one thing at a
//! time with a [`Request`], the host answers with a [`Reply`], and the logic
//! decides what to ask next. A routine is a function from the stage it has
//! reached and the reply to its last request to a [`Step`].
//!
//! A reply is read through three projections, [`Reply::failure`],
//! [`Reply::flag`] and [`Reply::monitor`]. A reply of another shape than
//! the one asked about projects to no failure, `false` and no monitor, so
//! every routine is defined on every reply.

use vstd::prelude::*;
use crate::geometry::{MonitorInfo, PhysicalPosition};
use crate::shortcuts::{OverlayEvent, Shortcut};
use crate::window::{WindowLabel, WindowSpec};

verus! {

/// Something worth a line on the diagnostic output. Each carries the
/// host's own words for what went wrong.
#[derive(Debug, PartialEq, Eq)]
pub enum Notice {
    /// The operating system refused a global shortcut.
    ShortcutRejected(Shortcut, String),
    /// The overlay could not be created at startup.
    OverlayNotCreated(String),
    /// The floating button could not be created at startup.
    FabNotCreated(String),
}

/// One thing the host is asked to do or to tell.
#[derive(Debug, PartialEq, Eq)]
pub enum Request {
    /// Is there a window with this label? Answered by a flag.
    Lookup(WindowLabel),
    /// Is the window visible? Answered by a flag, or fails.
    QueryVisible(WindowLabel),
    /// The monitor the window is on. Answered by a monitor or by none.
    QueryCurrentMonitor(WindowLabel),
    /// The primary monitor. Answered by a monitor or by none.
    QueryPrimaryMonitor,
    /// Create the window, at no particular position.
    Build(WindowSpec),
    /// Move the window to an absolute position in device pixels.
    SetPosition(WindowLabel, PhysicalPosition),
    /// Round the window's two bottom corners by `radius` logical points:
    /// what lies outside the rounding becomes see-through, the top
    /// corners stay square, and no blur is laid under the window.
    RoundBottomCorners(WindowLabel, u32),
    /// Show the window.
    Show(WindowLabel),
    /// Hide the window.
    Hide(WindowLabel),
    /// Give the window the input focus.
    Focus(WindowLabel),
    /// Broadcast an event to the content of the window.
    Emit(WindowLabel, OverlayEvent),
    /// Register a global shortcut with the operating system.
    Register(Shortcut),
    /// Write a notice to the diagnostic output.
    Log(Notice),
}

/// The host's answer to a request.
#[derive(Debug, PartialEq, Eq)]
pub enum Reply {
    /// The request was carried out.
    Done,
    /// The request could not be carried out; the host's words for why.
    Failed(String),
    /// The answer to a yes-or-no question.
    Flag(bool),
    /// The answer to a question about a monitor.
    Monitor(Option<MonitorInfo>),
}

/// What a routine does next.
#[derive(Debug, PartialEq, Eq)]
pub enum Step<S, T> {
    /// Put `request` to the host and come back in `stage` with its reply.
    Ask { request: Request, stage: S },
    /// The routine has ended, with a value or with the host's words for
    /// the failure that ended it.
    Finish(Result<T, String>),
}

impl Reply {
    /// The host's words where the request failed.
    pub open spec fn failure(self) -> Option<String> {
        match self {
            Reply::Failed(e) => Some(e),
            _ => None,
        }
    }

    /// Whether the reply says yes.
    pub open spec fn flag(self) -> bool {
        self == Reply::Flag(true)
    }

    /// The monitor the reply names, if it names one.
    pub open spec fn monitor(self) -> Option<MonitorInfo> {
        match self {
            Reply::Monitor(found) => found,
            _ => None,
        }
    }

    /// Whether the reply says yes.
    pub fn is_yes(&self) -> (yes: bool)
        ensures
            yes == self.flag(),
    {
        match self {
            Reply::Flag(b) => *b,
            _ => false,
        }
    }

    /// The monitor the reply names, if it names one.
    pub fn found_monitor(&self) -> (found: Option<MonitorInfo>)
        ensures
            found == self.monitor(),
    {
        match self {
            Reply::Monitor(found) => *found,
            _ => None,
        }
    }

    /// The host's words where the request failed; the reply itself where
    /// it did not.
    pub fn into_failure(self) -> (r: Result<Reply, String>)
        ensures
            r == match self.failure() {
                Some(e) => Err::<Reply, String>(e),
                None => Ok::<Reply, String>(self),
            },
    {
        match self {
            Reply::Failed(e) => Err(e),
            other => Ok(other),
        }
    }
}

} // verus!
