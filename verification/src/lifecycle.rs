//! Lifecycle event router: the state machine that receives platform events
//! and applies the shell's exit and hide policy.
//!
//! The policy is "minimize to tray": every window close request is prevented
//! and replaced by a hide, an exit request is suppressed unless it carries an
//! explicit termination code, and the only path to termination is the tray's
//! quit action (which requests an exit with a code) or a platform-forced
//! kill. The machine consumes one event at a time and returns the actions
//! the host loop must perform; it never performs platform work itself.

use vstd::prelude::*;

use crate::registry::WindowName;

verus! {

/// How the platform hides on a close request: some platforms hide the whole
/// application when the primary window closes, others hide only the
/// originating window. Fixed at startup.
#[derive(Clone, Copy, Debug, PartialEq, Eq, Structural)]
pub enum HideScope {
    WholeApplication,
    SingleWindow,
}

/// The decision computed for one close or exit event.
#[derive(Clone, Copy, Debug, PartialEq, Eq, Structural)]
pub enum ExitDecision {
    Prevent,
    Hide,
    Allow,
}

/// Router states. `Terminated` is reached only through an exit request that
/// carries a termination code, never through a plain window close.
#[derive(Clone, Copy, Debug, PartialEq, Eq, Structural)]
pub enum LifecycleState {
    Starting,
    Ready,
    Running,
    ExitPending,
    Terminated,
}

/// Platform events routed through the machine.
#[derive(Clone, Copy, Debug, PartialEq, Eq, Structural)]
pub enum LifecycleEvent {
    /// The platform signals that startup finished and windows exist.
    ReadySignal,
    /// The presentation layer dismissed the splash window; the main window
    /// is now the visible surface.
    SplashDismissed,
    /// The user asked to close a window.
    CloseRequested { window: WindowName },
    /// The platform asks to exit; `has_code` says whether an explicit
    /// termination code accompanies the request (the tray's quit action sets
    /// one).
    ExitRequested { has_code: bool },
    /// The tray's quit entry was selected.
    TrayQuit,
    /// The tray icon was activated to reveal the main window.
    TrayShowMain,
    /// A second process launch was detected while this instance runs.
    SecondInstance,
}

/// Actions the host loop must perform after a step.
#[derive(Clone, Copy, Debug, PartialEq, Eq, Structural)]
pub enum Action {
    /// Veto the pending window close.
    PreventClose,
    /// Hide the whole application.
    HideApplication,
    /// Hide one window.
    HideWindow(WindowName),
    /// Veto the pending exit.
    PreventExit,
    /// Make the main window visible.
    ShowMainWindow,
    /// Tell the user the application is already running, in the tray.
    NotifyAlreadyRunning,
    /// Ask the platform to exit with an explicit termination code.
    RequestExit,
}

/// The decision for a window close request: always `Hide`, never `Allow` —
/// closing a window minimizes to the tray instead of quitting.
pub open spec fn close_decision() -> ExitDecision {
    ExitDecision::Hide
}

/// The decision for an exit request: suppressed unless an explicit
/// termination code accompanies it.
pub open spec fn exit_decision(has_code: bool) -> ExitDecision {
    if has_code {
        ExitDecision::Allow
    } else {
        ExitDecision::Prevent
    }
}

/// Computes the close decision. Close requests are always intercepted and
/// translated to a hide, regardless of the originating window.
pub fn decide_close() -> (d: ExitDecision)
    ensures
        d == close_decision(),
{
    ExitDecision::Hide
}

/// Computes the exit decision from the presence of a termination code.
pub fn decide_exit(has_code: bool) -> (d: ExitDecision)
    ensures
        d == exit_decision(has_code),
{
    if has_code {
        ExitDecision::Allow
    } else {
        ExitDecision::Prevent
    }
}

/// The state after routing one event. Independent of the hide scope: hiding
/// never changes the lifecycle state.
pub open spec fn step_state(s: LifecycleState, ev: LifecycleEvent) -> LifecycleState {
    if s is Terminated {
        s
    } else {
        match ev {
            LifecycleEvent::ReadySignal => if s is Starting {
                LifecycleState::Ready
            } else {
                s
            },
            LifecycleEvent::SplashDismissed => if s is Ready {
                LifecycleState::Running
            } else {
                s
            },
            LifecycleEvent::CloseRequested { .. } => s,
            LifecycleEvent::ExitRequested { has_code } => if exit_decision(has_code)
                is Allow {
                LifecycleState::Terminated
            } else {
                s
            },
            LifecycleEvent::TrayQuit => LifecycleState::ExitPending,
            LifecycleEvent::TrayShowMain => s,
            LifecycleEvent::SecondInstance => s,
        }
    }
}

/// The actions emitted for one event. A close request yields a hide (of the
/// whole application or of the originating window, per the platform's
/// convention) followed by a close veto; an exit request without a code
/// yields an exit veto; tray quit requests a real exit; a second launch
/// yields exactly one notification.
pub open spec fn step_actions(s: LifecycleState, scope: HideScope, ev: LifecycleEvent) -> Seq<
    Action,
> {
    if s is Terminated {
        Seq::empty()
    } else {
        match ev {
            LifecycleEvent::ReadySignal => Seq::empty(),
            LifecycleEvent::SplashDismissed => Seq::empty(),
            LifecycleEvent::CloseRequested { window } => if scope is WholeApplication {
                seq![Action::HideApplication, Action::PreventClose]
            } else {
                seq![Action::HideWindow(window), Action::PreventClose]
            },
            LifecycleEvent::ExitRequested { has_code } => if has_code {
                Seq::empty()
            } else {
                seq![Action::PreventExit]
            },
            LifecycleEvent::TrayQuit => seq![Action::RequestExit],
            LifecycleEvent::TrayShowMain => seq![Action::ShowMainWindow],
            LifecycleEvent::SecondInstance => seq![Action::NotifyAlreadyRunning],
        }
    }
}

/// The lifecycle event router. Created in `Starting` with the platform's
/// hide convention, which never changes afterwards.
#[derive(Clone, Copy, Debug, PartialEq, Eq, Structural)]
pub struct LifecycleMachine {
    pub state: LifecycleState,
    pub hide_scope: HideScope,
}

impl LifecycleMachine {
    pub fn new(hide_scope: HideScope) -> (r: LifecycleMachine)
        ensures
            r.state is Starting,
            r.hide_scope == hide_scope,
    {
        LifecycleMachine { state: LifecycleState::Starting, hide_scope: hide_scope }
    }

    /// Routes one platform event: moves to the successor state and returns
    /// the actions the host loop must perform, exactly as `step_state` and
    /// `step_actions` describe them.
    pub fn step(&mut self, ev: LifecycleEvent) -> (acts: Vec<Action>)
        ensures
            final(self).hide_scope == old(self).hide_scope,
            final(self).state == step_state(old(self).state, ev),
            acts@ == step_actions(old(self).state, old(self).hide_scope, ev),
    {
        let mut acts: Vec<Action> = Vec::new();
        if matches!(self.state, LifecycleState::Terminated) {
            return acts;
        }
        match ev {
            LifecycleEvent::ReadySignal => {
                if matches!(self.state, LifecycleState::Starting) {
                    self.state = LifecycleState::Ready;
                }
            }
            LifecycleEvent::SplashDismissed => {
                if matches!(self.state, LifecycleState::Ready) {
                    self.state = LifecycleState::Running;
                }
            }
            LifecycleEvent::CloseRequested { window } => {
                match self.hide_scope {
                    HideScope::WholeApplication => {
                        acts.push(Action::HideApplication);
                    }
                    HideScope::SingleWindow => {
                        acts.push(Action::HideWindow(window));
                    }
                }
                acts.push(Action::PreventClose);
            }
            LifecycleEvent::ExitRequested { has_code } => {
                match decide_exit(has_code) {
                    ExitDecision::Allow => {
                        self.state = LifecycleState::Terminated;
                    }
                    _ => {
                        acts.push(Action::PreventExit);
                    }
                }
            }
            LifecycleEvent::TrayQuit => {
                self.state = LifecycleState::ExitPending;
                acts.push(Action::RequestExit);
            }
            LifecycleEvent::TrayShowMain => {
                acts.push(Action::ShowMainWindow);
            }
            LifecycleEvent::SecondInstance => {
                acts.push(Action::NotifyAlreadyRunning);
            }
        }
        acts
    }
}

/// The state after routing a whole sequence of events, first event first.
pub open spec fn run_events(s: LifecycleState, evs: Seq<LifecycleEvent>) -> LifecycleState
    decreases evs.len(),
{
    if evs.len() == 0 {
        s
    } else {
        run_events(step_state(s, evs[0]), evs.skip(1))
    }
}

/// Close requests never terminate the process: for every sequence made only
/// of `CloseRequested` events — no quit action among them — a machine in
/// `Running` stays in `Running` at every point along the sequence, and so
/// never reaches `Terminated`.
pub proof fn lemma_close_requests_keep_running(s: LifecycleState, evs: Seq<LifecycleEvent>)
    requires
        s is Running,
        forall|i: int| 0 <= i < evs.len() ==> evs[i] is CloseRequested,
    ensures
        run_events(s, evs) is Running,
        forall|k: int| 0 <= k <= evs.len() ==> run_events(s, evs.take(k)) is Running,
    decreases evs.len(),
{
    if evs.len() > 0 {
        assert(step_state(s, evs[0]) is Running);
        lemma_close_requests_keep_running(step_state(s, evs[0]), evs.skip(1));
        assert forall|k: int| 0 <= k <= evs.len() implies run_events(s, evs.take(k)) is Running by {
            if k == 0 {
                assert(run_events(s, evs.take(0)) == s);
            } else {
                let t = evs.take(k);
                assert(t[0] == evs[0]);
                assert(t.skip(1) =~= evs.skip(1).take(k - 1));
                assert(run_events(step_state(s, evs[0]), evs.skip(1).take(k - 1)) is Running);
                assert(run_events(s, t) == run_events(step_state(s, t[0]), t.skip(1)));
            }
        }
    }
}

/// Generalization over whole event histories: as long as no exit request
/// carrying a termination code arrives — whatever mix of close requests,
/// tray activity, second launches and readiness signals does — a live
/// machine stays live and never reaches `Terminated`.
pub proof fn lemma_only_coded_exit_terminates(s: LifecycleState, evs: Seq<LifecycleEvent>)
    requires
        s !is Terminated,
        forall|i: int|
            0 <= i < evs.len() ==> !(#[trigger] evs[i] matches LifecycleEvent::ExitRequested {
                has_code,
            } && has_code),
    ensures
        run_events(s, evs) !is Terminated,
    decreases evs.len(),
{
    if evs.len() > 0 {
        assert(step_state(s, evs[0]) !is Terminated);
        lemma_only_coded_exit_terminates(step_state(s, evs[0]), evs.skip(1));
    }
}

/// The process terminates only through an exit request that carries an
/// explicit termination code — the tray's quit action or a platform-forced
/// kill — never through a plain window close or any other event.
pub proof fn lemma_termination_only_by_coded_exit(s: LifecycleState, ev: LifecycleEvent)
    requires
        s !is Terminated,
        step_state(s, ev) is Terminated,
    ensures
        ev matches LifecycleEvent::ExitRequested { has_code } && has_code,
        exit_decision(ev->has_code) is Allow,
{
}

/// A second launch while this instance runs changes nothing and notifies
/// once: from any live state, the `SecondInstance` event leaves the state
/// unchanged and emits exactly one action, the already-running notification —
/// in particular, no window is shown or created.
pub proof fn lemma_second_instance_notifies_once(s: LifecycleState, scope: HideScope)
    requires
        s !is Terminated,
    ensures
        step_state(s, LifecycleEvent::SecondInstance) == s,
        step_actions(s, scope, LifecycleEvent::SecondInstance) == seq![
            Action::NotifyAlreadyRunning,
        ],
{
}

} // verus!
