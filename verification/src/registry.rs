//! Window registry: the shared splash and main window entries and the one
//! cross-window transition, closing the splash window and showing the main
//! window.
//!
//! A registry entry models what the core decides about a platform window:
//! whether it is meant to be visible and whether it has been closed. The
//! platform calls themselves are issued by the host loop, which carries out
//! the `WindowCommand`s this module returns; each such call is best-effort,
//! so no command here can fail.

use vstd::prelude::*;

use crate::errors::ShellError;

verus! {

/// The two logical windows the shell manages.
#[derive(Clone, Copy, Debug, PartialEq, Eq, Structural)]
pub enum WindowName {
    Splashscreen,
    Main,
}

/// The state the core tracks for one registered window.
#[derive(Clone, Copy, Debug, PartialEq, Eq, Structural)]
pub struct WindowEntry {
    /// The window is meant to be visible on screen.
    pub visible: bool,
    /// The window has been closed; a closed window cannot be shown again.
    pub closed: bool,
}

/// Registry of the two named windows. An entry is `None` until `register`
/// stores it; a registered entry lives until process exit.
#[derive(Clone, Copy, Debug, PartialEq, Eq, Structural)]
pub struct WindowRegistry {
    pub splash: Option<WindowEntry>,
    pub main: Option<WindowEntry>,
}

/// A platform call the host loop must perform on behalf of the registry.
#[derive(Clone, Copy, Debug, PartialEq, Eq, Structural)]
pub enum WindowCommand {
    Close(WindowName),
    Show(WindowName),
}

/// A window that was closed is no longer visible.
pub open spec fn entry_wf(e: WindowEntry) -> bool {
    e.closed ==> !e.visible
}

impl WindowRegistry {
    /// Every registered entry is well formed.
    pub open spec fn wf(self) -> bool {
        &&& (self.splash matches Some(e) ==> entry_wf(e))
        &&& (self.main matches Some(e) ==> entry_wf(e))
    }

    pub open spec fn entry_spec(self, name: WindowName) -> Option<WindowEntry> {
        match name {
            WindowName::Splashscreen => self.splash,
            WindowName::Main => self.main,
        }
    }

    /// The registry state after `close_splashscreen_and_show_main`: the
    /// splash entry, if registered, is closed and hidden; the main entry, if
    /// registered and not already closed, is visible.
    pub open spec fn after_close_and_show(self) -> WindowRegistry {
        WindowRegistry {
            splash: match self.splash {
                Some(_) => Some(WindowEntry { visible: false, closed: true }),
                None => None,
            },
            main: match self.main {
                Some(e) => if e.closed {
                    Some(e)
                } else {
                    Some(WindowEntry { visible: true, closed: false })
                },
                None => None,
            },
        }
    }

    /// An empty registry, before startup registers the two windows.
    pub fn new() -> (r: WindowRegistry)
        ensures
            r.splash is None,
            r.main is None,
            r.wf(),
    {
        WindowRegistry { splash: None, main: None }
    }

    /// Stores a fresh, not-yet-closed entry under the given logical name,
    /// leaving the other entry untouched.
    pub fn register(&mut self, name: WindowName, visible: bool)
        requires
            old(self).wf(),
        ensures
            final(self).wf(),
            final(self).entry_spec(name) == Some(WindowEntry { visible: visible, closed: false }),
            name is Splashscreen ==> final(self).main == old(self).main,
            name is Main ==> final(self).splash == old(self).splash,
    {
        let entry = WindowEntry { visible: visible, closed: false };
        match name {
            WindowName::Splashscreen => {
                self.splash = Some(entry);
            }
            WindowName::Main => {
                self.main = Some(entry);
            }
        }
    }

    /// Looks up a registered entry; a name that was never registered yields
    /// `NotFound`.
    pub fn get(&self, name: WindowName) -> (r: Result<WindowEntry, ShellError>)
        ensures
            match self.entry_spec(name) {
                Some(e) => r == Ok::<WindowEntry, ShellError>(e),
                None => r == Err::<WindowEntry, ShellError>(ShellError::NotFound),
            },
    {
        let entry = match name {
            WindowName::Splashscreen => self.splash,
            WindowName::Main => self.main,
        };
        match entry {
            Some(e) => Ok(e),
            None => Err(ShellError::NotFound),
        }
    }

    /// The sole cross-window transition: closes the splash window, then shows
    /// the main window. Both platform calls are best-effort — a window that
    /// is already closed or already visible is not an error — so the
    /// transition always succeeds. Returns the platform calls, in order, for
    /// the host loop to perform.
    pub fn close_splashscreen_and_show_main(&mut self) -> (cmds: Vec<WindowCommand>)
        requires
            old(self).wf(),
        ensures
            final(self).wf(),
            *final(self) == old(self).after_close_and_show(),
            cmds@ == close_and_show_commands(*old(self)),
    {
        let mut cmds: Vec<WindowCommand> = Vec::new();
        if self.splash.is_some() {
            self.splash = Some(WindowEntry { visible: false, closed: true });
            cmds.push(WindowCommand::Close(WindowName::Splashscreen));
        }
        match self.main {
            Some(e) => {
                if !e.closed {
                    self.main = Some(WindowEntry { visible: true, closed: false });
                    cmds.push(WindowCommand::Show(WindowName::Main));
                }
            }
            None => {}
        }
        cmds
    }
}

/// The platform calls issued by `close_splashscreen_and_show_main`: a close
/// for a registered splash window, then a show for a registered, not yet
/// closed main window.
pub open spec fn close_and_show_commands(r: WindowRegistry) -> Seq<WindowCommand> {
    let close: Seq<WindowCommand> = if r.splash is Some {
        seq![WindowCommand::Close(WindowName::Splashscreen)]
    } else {
        Seq::empty()
    };
    let show: Seq<WindowCommand> = if r.main matches Some(e) && !e.closed {
        seq![WindowCommand::Show(WindowName::Main)]
    } else {
        Seq::empty()
    };
    close + show
}

/// Closing the splash window and showing the main window is idempotent: a
/// second invocation leaves the registry in the same visible end state as the
/// first — main shown, splash closed — and, like the first, cannot fail.
pub proof fn lemma_close_and_show_idempotent(r: WindowRegistry)
    ensures
        r.after_close_and_show().after_close_and_show() == r.after_close_and_show(),
{
}

} // verus!
