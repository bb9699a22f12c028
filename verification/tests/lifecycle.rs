use shell_core::lifecycle::{
    Action, ExitDecision, HideScope, LifecycleEvent, LifecycleMachine, LifecycleState,
    decide_close, decide_exit,
};
use shell_core::registry::WindowName;

#[test]
fn close_requests_never_terminate() {
    // A long run of close requests, with no quit action anywhere, keeps the
    // machine in Running at every step.
    let mut m = LifecycleMachine::new(HideScope::WholeApplication);
    m.step(LifecycleEvent::ReadySignal);
    m.step(LifecycleEvent::SplashDismissed);
    assert_eq!(m.state, LifecycleState::Running);
    for i in 0..100 {
        let window = if i % 2 == 0 {
            WindowName::Main
        } else {
            WindowName::Splashscreen
        };
        let acts = m.step(LifecycleEvent::CloseRequested { window });
        assert_eq!(m.state, LifecycleState::Running);
        assert_eq!(acts, vec![Action::HideApplication, Action::PreventClose]);
    }
}

#[test]
fn close_request_hides_single_window_on_that_convention() {
    let mut m = LifecycleMachine::new(HideScope::SingleWindow);
    m.step(LifecycleEvent::ReadySignal);
    m.step(LifecycleEvent::SplashDismissed);
    let acts = m.step(LifecycleEvent::CloseRequested { window: WindowName::Main });
    assert_eq!(
        acts,
        vec![Action::HideWindow(WindowName::Main), Action::PreventClose]
    );
    assert_eq!(m.state, LifecycleState::Running);
}

#[test]
fn exit_without_code_is_suppressed() {
    let mut m = LifecycleMachine::new(HideScope::WholeApplication);
    m.step(LifecycleEvent::ReadySignal);
    m.step(LifecycleEvent::SplashDismissed);
    let acts = m.step(LifecycleEvent::ExitRequested { has_code: false });
    assert_eq!(m.state, LifecycleState::Running);
    assert_eq!(acts, vec![Action::PreventExit]);
}

#[test]
fn tray_quit_then_coded_exit_terminates() {
    let mut m = LifecycleMachine::new(HideScope::WholeApplication);
    m.step(LifecycleEvent::ReadySignal);
    m.step(LifecycleEvent::SplashDismissed);
    let acts = m.step(LifecycleEvent::TrayQuit);
    assert_eq!(m.state, LifecycleState::ExitPending);
    assert_eq!(acts, vec![Action::RequestExit]);
    let acts = m.step(LifecycleEvent::ExitRequested { has_code: true });
    assert_eq!(m.state, LifecycleState::Terminated);
    assert_eq!(acts, vec![]);
    // A terminated machine routes nothing any more.
    let acts = m.step(LifecycleEvent::CloseRequested { window: WindowName::Main });
    assert_eq!(m.state, LifecycleState::Terminated);
    assert_eq!(acts, vec![]);
}

#[test]
fn tray_activation_shows_main_window() {
    let mut m = LifecycleMachine::new(HideScope::SingleWindow);
    m.step(LifecycleEvent::ReadySignal);
    m.step(LifecycleEvent::SplashDismissed);
    let acts = m.step(LifecycleEvent::TrayShowMain);
    assert_eq!(acts, vec![Action::ShowMainWindow]);
    assert_eq!(m.state, LifecycleState::Running);
}

#[test]
fn second_instance_notifies_once_and_changes_nothing() {
    let mut m = LifecycleMachine::new(HideScope::WholeApplication);
    m.step(LifecycleEvent::ReadySignal);
    m.step(LifecycleEvent::SplashDismissed);
    let acts = m.step(LifecycleEvent::SecondInstance);
    assert_eq!(acts, vec![Action::NotifyAlreadyRunning]);
    assert_eq!(m.state, LifecycleState::Running);
}

#[test]
fn no_event_mix_without_coded_exit_terminates() {
    let mut m = LifecycleMachine::new(HideScope::SingleWindow);
    let events = [
        LifecycleEvent::ReadySignal,
        LifecycleEvent::SplashDismissed,
        LifecycleEvent::CloseRequested { window: WindowName::Main },
        LifecycleEvent::TrayShowMain,
        LifecycleEvent::SecondInstance,
        LifecycleEvent::ExitRequested { has_code: false },
        LifecycleEvent::CloseRequested { window: WindowName::Splashscreen },
        LifecycleEvent::TrayQuit,
        LifecycleEvent::ExitRequested { has_code: false },
        LifecycleEvent::CloseRequested { window: WindowName::Main },
    ];
    for ev in events {
        m.step(ev);
        assert_ne!(m.state, LifecycleState::Terminated);
    }
}

#[test]
fn decisions_follow_the_policy() {
    assert_eq!(decide_close(), ExitDecision::Hide);
    assert_eq!(decide_exit(false), ExitDecision::Prevent);
    assert_eq!(decide_exit(true), ExitDecision::Allow);
}

#[test]
fn ready_signal_moves_starting_to_ready() {
    let mut m = LifecycleMachine::new(HideScope::WholeApplication);
    assert_eq!(m.state, LifecycleState::Starting);
    let acts = m.step(LifecycleEvent::ReadySignal);
    assert_eq!(m.state, LifecycleState::Ready);
    assert_eq!(acts, vec![]);
    // Dismissing the splash window marks the steady state.
    m.step(LifecycleEvent::SplashDismissed);
    assert_eq!(m.state, LifecycleState::Running);
}
