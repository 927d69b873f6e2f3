//! The command that runs on the far side of a remote login and waits to be
//! paired with a session.

use vstd::prelude::*;

verus! {

/// What the daemon answered to the request for the remote command's lock.
#[derive(Clone, Debug)]
pub enum AttachStatus {
    /// Another terminal is attached, which cannot be for this request.
    Busy,
    /// The command was paired with a running session.
    Attached,
    /// The command was paired with a new session.
    Created,
    /// The local side did not send its part in time.
    Timeout,
    /// Another session is being paired right now.
    SshExtensionParkingSlotFull,
    /// Something went wrong that none of the other cases covers.
    UnexpectedError(String),
}

/// Why the remote command gives up.
#[derive(Clone, Debug)]
pub enum RemoteError {
    /// The daemon found the session busy, which should be impossible.
    Busy,
    /// The local side did not send its part in time.
    Timeout,
    /// The daemon ran into an error, which it describes.
    Unexpected(String),
}

/// What the remote command does after the daemon's answer.
#[derive(Clone, Debug)]
pub enum Step {
    /// Go on to copy bytes between the terminal and the session.
    PipeBytes,
    /// Tell the user to try again, and return without an error.
    TryAgain,
    /// Return with this error; where `announce` is set, print `timeout`
    /// first.
    Fail { error: RemoteError, announce: bool },
}

/// Whether `step` is what the remote command does after the answer
/// `status`: it goes on where it was paired with a session, asks the user to
/// try again where another pairing is under way, and fails on every other
/// answer.
pub open spec fn answered(step: Step, status: AttachStatus) -> bool {
    match status {
        AttachStatus::Attached | AttachStatus::Created => step is PipeBytes,
        AttachStatus::SshExtensionParkingSlotFull => step is TryAgain,
        AttachStatus::Busy => step matches Step::Fail { error, announce } && error is Busy
            && !announce,
        AttachStatus::Timeout => step matches Step::Fail { error, announce } && error is Timeout
            && announce,
        AttachStatus::UnexpectedError(err) => step matches Step::Fail { error, announce }
            && !announce && error == RemoteError::Unexpected(err),
    }
}

/// Decides what the remote command does after the daemon's answer to its
/// request for the lock.
pub fn run(status: AttachStatus) -> (step: Step)
    ensures
        answered(step, status),
{
    match status {
        AttachStatus::Busy => Step::Fail { error: RemoteError::Busy, announce: false },
        AttachStatus::Attached => Step::PipeBytes,
        AttachStatus::Created => Step::PipeBytes,
        AttachStatus::Timeout => Step::Fail { error: RemoteError::Timeout, announce: true },
        AttachStatus::SshExtensionParkingSlotFull => Step::TryAgain,
        AttachStatus::UnexpectedError(err) => Step::Fail {
            error: RemoteError::Unexpected(err),
            announce: false,
        },
    }
}

} // verus!
