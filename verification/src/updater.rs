//! Update orchestrator: the check → download → install → clear-cache
//! pipeline as four independently invokable operations.
//!
//! The orchestrator enforces each step's precondition itself — a download
//! needs a prior check that reported availability, an install needs a
//! completed download — and returns `NotFound` when a step is invoked out of
//! order, leaving its state untouched. The network transfer and the platform
//! install run in the host; their outcomes are handed in as arguments, and
//! the orchestrator states what its state becomes for every possible
//! outcome. The host must consult `can_download` / `can_install` before
//! starting any transfer or install, so an out-of-order request performs no
//! network activity at all.

use vstd::prelude::*;

use crate::errors::ShellError;

verus! {

/// One in-flight or completed update check. Created by `check_for_updates`,
/// advanced by `download_update` and `install_update`, discarded by
/// `clear_update_cache`.
#[derive(Clone, Debug)]
pub struct UpdateSession {
    /// The check reported that an update is available.
    pub available: bool,
    /// Version metadata of the available update; present exactly when the
    /// update is available.
    pub version: Option<String>,
    /// Download progress in percent, at most 100.
    pub progress: u32,
    /// The artifact was fully downloaded and validated.
    pub downloaded: bool,
    /// The update was applied.
    pub installed: bool,
}

/// What the update check transport reported.
#[derive(Clone, Debug)]
pub enum CheckOutcome {
    /// An update with the given version is available.
    Available { version: String },
    /// The application is up to date.
    UpToDate,
    /// The check endpoint was unreachable.
    Unreachable,
}

/// How the artifact transfer ended.
#[derive(Clone, Copy, Debug, PartialEq, Eq, Structural)]
pub enum TransferOutcome {
    /// The artifact arrived whole and validated.
    Completed,
    /// The transport failed mid-transfer.
    TransportFailed,
    /// The artifact arrived but failed validation.
    Corrupted,
}

/// How the platform install step ended.
#[derive(Clone, Copy, Debug, PartialEq, Eq, Structural)]
pub enum InstallOutcome {
    /// The update was applied.
    Applied,
    /// The platform installer failed; nothing was applied.
    Failed,
}

/// What `check_for_updates` reports to the caller.
#[derive(Clone, Debug, PartialEq, Eq)]
pub struct UpdateStatus {
    pub available: bool,
    pub version: Option<String>,
}

/// Well-formedness of a session: installs presuppose a download, a download
/// presupposes availability, progress is a percentage, a completed download
/// has full progress, and version metadata accompanies exactly the available
/// sessions.
pub open spec fn session_wf(s: UpdateSession) -> bool {
    &&& s.downloaded ==> s.available
    &&& s.installed ==> s.downloaded
    &&& s.progress <= 100
    &&& s.downloaded ==> s.progress == 100
    &&& s.available <==> s.version is Some
}

/// The update orchestrator: at most one current session, plus whether an
/// application restart has been scheduled by a completed install.
pub struct UpdateOrchestrator {
    pub session: Option<UpdateSession>,
    pub restart_scheduled: bool,
}

impl UpdateOrchestrator {
    /// The current session, if any, is well formed.
    pub open spec fn wf(self) -> bool {
        self.session matches Some(s) ==> session_wf(s)
    }

    /// A download is permitted: the current session reported availability
    /// and has not completed its download yet.
    pub open spec fn can_download_spec(self) -> bool {
        self.session matches Some(s) && s.available && !s.downloaded
    }

    /// An install is permitted: the current session's download completed.
    pub open spec fn can_install_spec(self) -> bool {
        self.session matches Some(s) && s.downloaded
    }

    /// A fresh orchestrator: no session, no restart scheduled.
    pub fn new() -> (r: UpdateOrchestrator)
        ensures
            r.session is None,
            !r.restart_scheduled,
            r.wf(),
    {
        UpdateOrchestrator { session: None, restart_scheduled: false }
    }

    /// Whether the host may begin an artifact transfer. The host must check
    /// this before touching the network; when it is false, `download_update`
    /// refuses, so no transfer is ever started without a session that
    /// reported availability.
    pub fn can_download(&self) -> (b: bool)
        ensures
            b == self.can_download_spec(),
    {
        match &self.session {
            Some(s) => s.available && !s.downloaded,
            None => false,
        }
    }

    /// Whether the host may run the platform install step.
    pub fn can_install(&self) -> (b: bool)
        ensures
            b == self.can_install_spec(),
    {
        match &self.session {
            Some(s) => s.downloaded,
            None => false,
        }
    }

    /// Records the outcome of an update check. A reachable endpoint replaces
    /// the current session with a fresh one carrying the reported
    /// availability and version, and reports both to the caller; an
    /// unreachable endpoint surfaces `NetworkError` and leaves the
    /// orchestrator untouched, so the caller may retry.
    pub fn check_for_updates(&mut self, outcome: CheckOutcome) -> (r: Result<
        UpdateStatus,
        ShellError,
    >)
        requires
            old(self).wf(),
        ensures
            final(self).wf(),
            final(self).restart_scheduled == old(self).restart_scheduled,
            match outcome {
                CheckOutcome::Available { version } => {
                    &&& r matches Ok(st)
                    &&& st.available
                    &&& st.version matches Some(rv) && rv@ == version@
                    &&& final(self).session matches Some(s)
                    &&& s.available
                    &&& s.version matches Some(sv) && sv@ == version@
                    &&& s.progress == 0
                    &&& !s.downloaded
                    &&& !s.installed
                },
                CheckOutcome::UpToDate => {
                    &&& r matches Ok(st) && !st.available && st.version is None
                    &&& final(self).session matches Some(s)
                    &&& !s.available
                    &&& s.version is None
                    &&& !s.downloaded
                    &&& !s.installed
                },
                CheckOutcome::Unreachable => {
                    &&& r == Err::<UpdateStatus, ShellError>(ShellError::NetworkError)
                    &&& final(self).session == old(self).session
                },
            },
    {
        match outcome {
            CheckOutcome::Available { version } => {
                let reported = version.clone();
                self.session = Some(
                    UpdateSession {
                        available: true,
                        version: Some(version),
                        progress: 0,
                        downloaded: false,
                        installed: false,
                    },
                );
                Ok(UpdateStatus { available: true, version: Some(reported) })
            }
            CheckOutcome::UpToDate => {
                self.session = Some(
                    UpdateSession {
                        available: false,
                        version: None,
                        progress: 0,
                        downloaded: false,
                        installed: false,
                    },
                );
                Ok(UpdateStatus { available: false, version: None })
            }
            CheckOutcome::Unreachable => Err(ShellError::NetworkError),
        }
    }

    /// Records one progress callback of the running transfer, in percent.
    /// Progress never decreases and never exceeds 100: the recorded value is
    /// the maximum of the old progress and the (capped) report. Without a
    /// downloadable session the callback is refused and nothing changes.
    pub fn record_progress(&mut self, percent: u32) -> (r: Result<(), ShellError>)
        requires
            old(self).wf(),
        ensures
            final(self).wf(),
            final(self).restart_scheduled == old(self).restart_scheduled,
            !old(self).can_download_spec() ==> {
                &&& r == Err::<(), ShellError>(ShellError::NotFound)
                &&& final(self).session == old(self).session
            },
            old(self).can_download_spec() ==> {
                &&& r == Ok::<(), ShellError>(())
                &&& old(self).session matches Some(s0)
                &&& final(self).session matches Some(s)
                &&& s.progress == max_progress(s0.progress, percent)
                &&& s.available == s0.available
                &&& s.version == s0.version
                &&& s.downloaded == s0.downloaded
                &&& s.installed == s0.installed
            },
    {
        match &mut self.session {
            Some(s) => {
                if s.available && !s.downloaded {
                    let capped: u32 = if percent > 100 {
                        100
                    } else {
                        percent
                    };
                    if capped > s.progress {
                        s.progress = capped;
                    }
                    Ok(())
                } else {
                    Err(ShellError::NotFound)
                }
            }
            None => Err(ShellError::NotFound),
        }
    }

    /// Records the end of the artifact transfer. Invoked without a prior
    /// successful check reporting availability, it fails with the
    /// precondition error `NotFound` and changes nothing — and since the
    /// host gates the transfer on `can_download`, no network activity took
    /// place either. With a downloadable session, a completed transfer marks
    /// the session downloaded at full progress; a failed or corrupted
    /// transfer surfaces `NetworkError` or `IntegrityError` and reverts the
    /// session to its pre-download state (availability and version kept,
    /// progress discarded) so the caller may retry.
    pub fn download_update(&mut self, outcome: TransferOutcome) -> (r: Result<(), ShellError>)
        requires
            old(self).wf(),
        ensures
            final(self).wf(),
            final(self).restart_scheduled == old(self).restart_scheduled,
            !old(self).can_download_spec() ==> {
                &&& r == Err::<(), ShellError>(ShellError::NotFound)
                &&& final(self).session == old(self).session
            },
            old(self).can_download_spec() ==> {
                &&& old(self).session matches Some(s0)
                &&& final(self).session matches Some(s)
                &&& s.available == s0.available
                &&& s.version == s0.version
                &&& !s.installed
                &&& match outcome {
                    TransferOutcome::Completed => {
                        &&& r == Ok::<(), ShellError>(())
                        &&& s.downloaded
                        &&& s.progress == 100
                    },
                    TransferOutcome::TransportFailed => {
                        &&& r == Err::<(), ShellError>(ShellError::NetworkError)
                        &&& !s.downloaded
                        &&& s.progress == 0
                    },
                    TransferOutcome::Corrupted => {
                        &&& r == Err::<(), ShellError>(ShellError::IntegrityError)
                        &&& !s.downloaded
                        &&& s.progress == 0
                    },
                }
            },
    {
        match &mut self.session {
            Some(s) => {
                if s.available && !s.downloaded {
                    match outcome {
                        TransferOutcome::Completed => {
                            s.downloaded = true;
                            s.progress = 100;
                            Ok(())
                        }
                        TransferOutcome::TransportFailed => {
                            s.progress = 0;
                            Err(ShellError::NetworkError)
                        }
                        TransferOutcome::Corrupted => {
                            s.progress = 0;
                            Err(ShellError::IntegrityError)
                        }
                    }
                } else {
                    Err(ShellError::NotFound)
                }
            }
            None => Err(ShellError::NotFound),
        }
    }

    /// Abandons a running download between progress callbacks: the session
    /// reverts to its pre-download state and partial artifacts are
    /// discarded. Without a downloadable session nothing changes. Always
    /// succeeds.
    pub fn abandon_download(&mut self)
        requires
            old(self).wf(),
        ensures
            final(self).wf(),
            final(self).restart_scheduled == old(self).restart_scheduled,
            !old(self).can_download_spec() ==> final(self).session == old(self).session,
            old(self).can_download_spec() ==> {
                &&& old(self).session matches Some(s0)
                &&& final(self).session matches Some(s)
                &&& s.available == s0.available
                &&& s.version == s0.version
                &&& s.progress == 0
                &&& !s.downloaded
                &&& s.installed == s0.installed
            },
    {
        match &mut self.session {
            Some(s) => {
                if s.available && !s.downloaded {
                    s.progress = 0;
                }
            }
            None => {}
        }
    }

    /// Records the outcome of the platform install step. Invoked without a
    /// completed download, it fails with the precondition error `NotFound`
    /// and does not alter the orchestrator. With a downloaded session, a
    /// successful install marks the session installed and schedules the
    /// application restart; a failed install surfaces `InstallError`,
    /// changes nothing, and leaves the caller to decide whether to retry.
    pub fn install_update(&mut self, outcome: InstallOutcome) -> (r: Result<(), ShellError>)
        requires
            old(self).wf(),
        ensures
            final(self).wf(),
            !old(self).can_install_spec() ==> {
                &&& r == Err::<(), ShellError>(ShellError::NotFound)
                &&& *final(self) == *old(self)
            },
            old(self).can_install_spec() ==> match outcome {
                InstallOutcome::Applied => {
                    &&& r == Ok::<(), ShellError>(())
                    &&& old(self).session matches Some(s0)
                    &&& final(self).session matches Some(s)
                    &&& s.available == s0.available
                    &&& s.version == s0.version
                    &&& s.progress == s0.progress
                    &&& s.downloaded
                    &&& s.installed
                    &&& final(self).restart_scheduled
                },
                InstallOutcome::Failed => {
                    &&& r == Err::<(), ShellError>(ShellError::InstallError)
                    &&& *final(self) == *old(self)
                },
            },
    {
        match &mut self.session {
            Some(s) => {
                if s.downloaded {
                    match outcome {
                        InstallOutcome::Applied => {
                            s.installed = true;
                            self.restart_scheduled = true;
                            Ok(())
                        }
                        InstallOutcome::Failed => Err(ShellError::InstallError),
                    }
                } else {
                    Err(ShellError::NotFound)
                }
            }
            None => Err(ShellError::NotFound),
        }
    }

    /// Removes any locally staged artifacts and invalidates the current
    /// session. Best-effort and idempotent: a missing cache or session is
    /// not an error, and a second invocation leaves the same state.
    pub fn clear_update_cache(&mut self)
        requires
            old(self).wf(),
        ensures
            final(self).wf(),
            final(self).session is None,
            final(self).restart_scheduled == old(self).restart_scheduled,
    {
        self.session = None;
    }
}

/// The progress recorded after one callback: the report is capped at 100
/// percent and never lowers what was already recorded.
pub open spec fn max_progress(current: u32, reported: u32) -> u32 {
    let capped: u32 = if reported > 100 {
        100
    } else {
        reported
    };
    if capped > current {
        capped
    } else {
        current
    }
}

} // verus!
