//! The one-shot signal that tells of a subshell's exit.

use vstd::prelude::*;

verus! {

/// Records the exit status of one child process. It fires at most once: the
/// first status reported stays, and every later look finds it.
#[derive(Clone, Copy, Debug, PartialEq, Eq, Structural)]
pub struct ExitNotifier {
    slot: Option<i32>,
}

impl ExitNotifier {
    /// The status that was reported, if the child has exited.
    pub closed spec fn status(&self) -> Option<i32> {
        self.slot
    }

    /// A notifier for a child that is still running.
    pub fn new() -> (notifier: ExitNotifier)
        ensures
            notifier.status() is None,
    {
        ExitNotifier { slot: None }
    }

    /// Reports that the child exited with `status`. A second report changes
    /// nothing.
    pub fn notify_exit(&mut self, status: i32)
        ensures
            old(self).status() is None ==> final(self).status() == Some(status),
            old(self).status() is Some ==> final(self).status() == old(self).status(),
    {
        if self.slot.is_none() {
            self.slot = Some(status);
        }
    }

    /// Looks, without waiting, whether the child has exited.
    pub fn wait(&self) -> (status: Option<i32>)
        ensures
            status == self.status(),
    {
        self.slot
    }
}

/// The status recorded for a child of which waiting told `reported`: its own
/// status where it left one, and 1 where it left none or waiting failed.
pub open spec fn exit_status_of(reported: Option<Option<i32>>) -> i32 {
    match reported {
        Some(Some(status)) => status,
        _ => 1,
    }
}

/// Turns the outcome of waiting for a child into the status to report:
/// `None` stands for a failed wait, `Some(None)` for a child that left no
/// status.
pub fn reported_exit_status(reported: Option<Option<i32>>) -> (status: i32)
    ensures
        status == exit_status_of(reported),
{
    match reported {
        Some(Some(status)) => status,
        _ => 1,
    }
}

} // verus!
