use shell_core::errors::ShellError;
use shell_core::guard::{InstanceGuard, LaunchResponse};
use shell_core::registry::{WindowCommand, WindowEntry, WindowName, WindowRegistry};

#[test]
fn close_splashscreen_and_show_main_transitions() {
    let mut r = WindowRegistry::new();
    r.register(WindowName::Splashscreen, true);
    r.register(WindowName::Main, false);
    let cmds = r.close_splashscreen_and_show_main();
    assert_eq!(
        cmds,
        vec![
            WindowCommand::Close(WindowName::Splashscreen),
            WindowCommand::Show(WindowName::Main),
        ]
    );
    let splash = r.get(WindowName::Splashscreen).unwrap();
    assert!(splash.closed && !splash.visible);
    let main = r.get(WindowName::Main).unwrap();
    assert!(main.visible && !main.closed);
}

#[test]
fn close_splashscreen_and_show_main_is_idempotent() {
    let mut r = WindowRegistry::new();
    r.register(WindowName::Splashscreen, true);
    r.register(WindowName::Main, false);
    r.close_splashscreen_and_show_main();
    let once = r;
    // The second invocation returns without error and leaves the same
    // visible end state: main shown, splash closed. The best-effort close
    // of the already-closed splash window is issued again and is harmless.
    let cmds = r.close_splashscreen_and_show_main();
    assert_eq!(r, once);
    assert_eq!(
        cmds,
        vec![
            WindowCommand::Close(WindowName::Splashscreen),
            WindowCommand::Show(WindowName::Main),
        ]
    );
}

#[test]
fn lookup_of_unregistered_window_is_not_found() {
    let r = WindowRegistry::new();
    assert_eq!(r.get(WindowName::Main), Err(ShellError::NotFound));
    assert_eq!(r.get(WindowName::Splashscreen), Err(ShellError::NotFound));
}

#[test]
fn register_stores_a_fresh_entry() {
    let mut r = WindowRegistry::new();
    r.register(WindowName::Main, true);
    assert_eq!(
        r.get(WindowName::Main),
        Ok(WindowEntry { visible: true, closed: false })
    );
    assert_eq!(r.get(WindowName::Splashscreen), Err(ShellError::NotFound));
}

#[test]
fn second_launch_aborts_and_notifies_exactly_once() {
    let mut g = InstanceGuard::new();
    assert_eq!(g.handle_launch(), LaunchResponse::Proceed);
    // Every launch attempt while the guard is active aborts before any
    // window is created and signals the primary instance exactly once.
    let mut notifications = 0;
    for _ in 0..5 {
        match g.handle_launch() {
            LaunchResponse::Proceed => panic!("a second instance proceeded"),
            LaunchResponse::AbortAndNotifyPrimary => notifications += 1,
        }
    }
    assert_eq!(notifications, 5);
}

#[test]
fn best_effort_transition_with_missing_windows() {
    // Nothing registered: the transition still succeeds and issues no
    // platform calls.
    let mut r = WindowRegistry::new();
    let cmds = r.close_splashscreen_and_show_main();
    assert!(cmds.is_empty());
    // Only the main window registered, already visible: showing it again is
    // not an error.
    r.register(WindowName::Main, true);
    let cmds = r.close_splashscreen_and_show_main();
    assert_eq!(cmds, vec![WindowCommand::Show(WindowName::Main)]);
    assert!(r.get(WindowName::Main).unwrap().visible);
}
