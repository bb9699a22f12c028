//! Error taxonomy of the shell core.

use vstd::prelude::*;

verus! {

/// Errors surfaced by the shell core.
///
/// `NotFound` doubles as the precondition error of the update pipeline: a
/// window or update session was used before the step that creates it had
/// succeeded. `PlatformError` stands for best-effort window, tray and
/// notification calls whose failure is swallowed by the callers.
#[derive(Clone, Copy, Debug, PartialEq, Eq, Structural)]
pub enum ShellError {
    NotFound,
    NetworkError,
    IntegrityError,
    InstallError,
    PlatformError,
}

} // verus!
