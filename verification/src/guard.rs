//! Single-instance guard: decides, once per launch attempt, whether the
//! process may proceed past startup.
//!
//! The first launch claims the guard and proceeds; every later launch while
//! the guard is active is told to abort before any window is created, and to
//! signal the already-running primary instance exactly once. The primary
//! instance reacts by showing a notification — delivery is best-effort, and
//! a failed delivery never undoes the abort decision.

use vstd::prelude::*;

verus! {

/// What a launch attempt must do.
#[derive(Clone, Copy, Debug, PartialEq, Eq, Structural)]
pub enum LaunchResponse {
    /// No other instance runs: proceed with startup, create windows.
    Proceed,
    /// Another instance runs: abort this startup without creating any
    /// window, and signal the primary instance once.
    AbortAndNotifyPrimary,
}

/// The process-wide single-instance guard.
#[derive(Clone, Copy, Debug, PartialEq, Eq, Structural)]
pub struct InstanceGuard {
    /// A primary instance holds the guard.
    pub primary_running: bool,
}

impl InstanceGuard {
    /// A guard that no instance holds yet.
    pub fn new() -> (r: InstanceGuard)
        ensures
            !r.primary_running,
    {
        InstanceGuard { primary_running: false }
    }

    /// Handles one launch attempt. The first attempt claims the guard and
    /// proceeds; while the guard is held, every attempt is aborted — so no
    /// second main window is ever created — and the primary instance is
    /// signalled exactly once per attempt. Whether the resulting
    /// notification can be delivered does not matter here: the abort
    /// decision stands either way.
    pub fn handle_launch(&mut self) -> (r: LaunchResponse)
        ensures
            final(self).primary_running,
            old(self).primary_running ==> r is AbortAndNotifyPrimary,
            !old(self).primary_running ==> r is Proceed,
    {
        if self.primary_running {
            LaunchResponse::AbortAndNotifyPrimary
        } else {
            self.primary_running = true;
            LaunchResponse::Proceed
        }
    }
}

} // verus!
