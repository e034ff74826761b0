//! The three ways the program runs, and which one a start selects.

use vstd::prelude::*;

verus! {

/// The three ways the program runs.
#[derive(Clone, Copy, Debug, PartialEq, Eq, Structural)]
pub enum Mode {
    /// Record one blob and put it on the clipboard.
    Ingest,
    /// The interactive browser.
    Browse,
    /// The clipboard monitor.
    Daemon,
}

/// The mode for a start: the daemon flag wins and ignores standard input;
/// without it, a terminal on standard input means browsing and anything
/// else is a blob to ingest.
pub open spec fn mode_for(daemon: bool, stdin_is_terminal: bool) -> Mode {
    if daemon {
        Mode::Daemon
    } else if stdin_is_terminal {
        Mode::Browse
    } else {
        Mode::Ingest
    }
}

/// Selects the mode for a start.
pub fn select_mode(daemon: bool, stdin_is_terminal: bool) -> (mode: Mode)
    ensures
        mode == mode_for(daemon, stdin_is_terminal),
{
    if daemon {
        Mode::Daemon
    } else if stdin_is_terminal {
        Mode::Browse
    } else {
        Mode::Ingest
    }
}

} // verus!
