//! What can fail, and what each mode of operation does about it.

use crate::mode::Mode;
use vstd::prelude::*;

verus! {

/// The kinds of failure.
#[derive(Clone, Copy, Debug, PartialEq, Eq, Structural)]
pub enum Failure {
    /// The data directory could not be created or the store not opened.
    StoreOpen,
    /// An insert or a delete failed.
    StoreWrite,
    /// Listing the clips failed.
    StoreRead,
    /// The clipboard could not be read.
    ClipboardRead,
    /// The clipboard could not be written.
    ClipboardWrite,
    /// Raw mode or the alternate screen could not be entered or left.
    TerminalSetup,
    /// The text of a clip was empty.
    InvalidArgument,
}

/// What to do about a failure.
#[derive(Clone, Copy, Debug, PartialEq, Eq, Structural)]
pub enum Policy {
    /// Report the failure and end with a non-zero exit code.
    Fatal,
    /// Carry on; the next tick tries again.
    Retry,
    /// Carry on as if nothing had been asked.
    Ignore,
}

/// The policy table. The store never drops data silently, so its failures
/// are fatal everywhere. A failed clipboard read is retried; a failed
/// clipboard write is retried by the monitor only. Empty text is ignored.
pub open spec fn policy_for(failure: Failure, mode: Mode) -> Policy {
    match failure {
        Failure::StoreOpen | Failure::StoreWrite | Failure::StoreRead | Failure::TerminalSetup => {
            Policy::Fatal
        },
        Failure::ClipboardRead => Policy::Retry,
        Failure::ClipboardWrite => if mode is Daemon {
            Policy::Retry
        } else {
            Policy::Fatal
        },
        Failure::InvalidArgument => Policy::Ignore,
    }
}

/// Looks a failure up in the policy table.
pub fn policy(failure: Failure, mode: Mode) -> (p: Policy)
    ensures
        p == policy_for(failure, mode),
{
    match failure {
        Failure::StoreOpen => Policy::Fatal,
        Failure::StoreWrite => Policy::Fatal,
        Failure::StoreRead => Policy::Fatal,
        Failure::TerminalSetup => Policy::Fatal,
        Failure::ClipboardRead => Policy::Retry,
        Failure::ClipboardWrite => match mode {
            Mode::Daemon => Policy::Retry,
            _ => Policy::Fatal,
        },
        Failure::InvalidArgument => Policy::Ignore,
    }
}

/// The operation that failed, in words, for the message on standard error.
pub open spec fn description_of(failure: Failure) -> Seq<char> {
    match failure {
        Failure::StoreOpen => "unable to open the clip store"@,
        Failure::StoreWrite => "unable to write to the clip store"@,
        Failure::StoreRead => "unable to read the clip store"@,
        Failure::ClipboardRead => "unable to read the clipboard"@,
        Failure::ClipboardWrite => "unable to write to the clipboard"@,
        Failure::TerminalSetup => "unable to set up the terminal"@,
        Failure::InvalidArgument => "the text of a clip must not be empty"@,
    }
}

/// Says in words which operation failed.
pub fn describe(failure: Failure) -> (text: &'static str)
    ensures
        text@ == description_of(failure),
{
    match failure {
        Failure::StoreOpen => "unable to open the clip store",
        Failure::StoreWrite => "unable to write to the clip store",
        Failure::StoreRead => "unable to read the clip store",
        Failure::ClipboardRead => "unable to read the clipboard",
        Failure::ClipboardWrite => "unable to write to the clipboard",
        Failure::TerminalSetup => "unable to set up the terminal",
        Failure::InvalidArgument => "the text of a clip must not be empty",
    }
}

/// A failure in the store is fatal in every mode.
pub proof fn lemma_store_failures_fatal(failure: Failure, mode: Mode)
    requires
        failure is StoreOpen || failure is StoreWrite || failure is StoreRead,
    ensures
        policy_for(failure, mode) is Fatal,
{
}

} // verus!
