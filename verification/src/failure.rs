//! Why a backup, or the setting up of a run, did not succeed.

use vstd::prelude::*;
use crate::text::{decimal, decimal_text};

verus! {

/// The first thing that went wrong. A backup keeps it until the end of the
/// run and prints it in its summary.
#[derive(Debug, PartialEq, Eq)]
pub enum Failure {
    /// A command ran and exited with a status other than zero.
    CommandFailed { exit_code: i32 },
    /// A command was ended by a signal, so it has no exit status.
    CommandSignaled,
    /// A process could not be started or waited for; `reason` is what the
    /// operating system said.
    SpawnFailed { reason: String },
    /// A rename on the file system was refused; `reason` is what the
    /// operating system said.
    FilesystemOpFailed { reason: String },
    /// The receiving end of a transfer did not exit with status zero.
    ReceiveFailed,
    /// The receiving end succeeded and the sending end did not.
    SendFailed,
}

/// A failure with its texts as sequences of characters.
pub enum FailureView {
    CommandFailed { exit_code: i32 },
    CommandSignaled,
    SpawnFailed { reason: Seq<char> },
    FilesystemOpFailed { reason: Seq<char> },
    ReceiveFailed,
    SendFailed,
}

impl View for Failure {
    type V = FailureView;

    open spec fn view(&self) -> FailureView {
        match *self {
            Failure::CommandFailed { exit_code } => FailureView::CommandFailed { exit_code },
            Failure::CommandSignaled => FailureView::CommandSignaled,
            Failure::SpawnFailed { reason } => FailureView::SpawnFailed { reason: reason@ },
            Failure::FilesystemOpFailed { reason } => FailureView::FilesystemOpFailed {
                reason: reason@,
            },
            Failure::ReceiveFailed => FailureView::ReceiveFailed,
            Failure::SendFailed => FailureView::SendFailed,
        }
    }
}

/// The view of a result that carries nothing or a failure.
pub open spec fn verdict_view(verdict: Result<(), Failure>) -> Result<(), FailureView> {
    match verdict {
        Ok(()) => Ok(()),
        Err(failure) => Err(failure@),
    }
}

/// The sentence that a summary prints for a failure.
pub open spec fn message_text(failure: FailureView) -> Seq<char> {
    match failure {
        FailureView::CommandFailed { exit_code } => "Command failed with "@ + decimal_text(
            exit_code as int,
        ),
        FailureView::CommandSignaled => "Command failed with signal"@,
        FailureView::SpawnFailed { reason } => reason,
        FailureView::FilesystemOpFailed { reason } => reason,
        FailureView::ReceiveFailed => "Receive command failed"@,
        FailureView::SendFailed => "Send command failed"@,
    }
}

impl Clone for Failure {
    fn clone(&self) -> (copy: Failure)
        ensures
            copy@ == self@,
    {
        match self {
            Failure::CommandFailed { exit_code } => Failure::CommandFailed {
                exit_code: *exit_code,
            },
            Failure::CommandSignaled => Failure::CommandSignaled,
            Failure::SpawnFailed { reason } => Failure::SpawnFailed { reason: reason.clone() },
            Failure::FilesystemOpFailed { reason } => Failure::FilesystemOpFailed {
                reason: reason.clone(),
            },
            Failure::ReceiveFailed => Failure::ReceiveFailed,
            Failure::SendFailed => Failure::SendFailed,
        }
    }
}

impl Failure {
    /// The sentence that a summary prints for this failure.
    pub fn message(&self) -> (text: String)
        ensures
            text@ == message_text(self@),
    {
        match self {
            Failure::CommandFailed { exit_code } => {
                let mut text = String::from_str("Command failed with ");
                text.append(decimal(*exit_code).as_str());
                text
            },
            Failure::CommandSignaled => String::from_str("Command failed with signal"),
            Failure::SpawnFailed { reason } => reason.clone(),
            Failure::FilesystemOpFailed { reason } => reason.clone(),
            Failure::ReceiveFailed => String::from_str("Receive command failed"),
            Failure::SendFailed => String::from_str("Send command failed"),
        }
    }
}

} // verus!
