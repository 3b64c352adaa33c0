use easyenv::cancel::AppState;
use easyenv::window::{toggle_maximizes, tray_command, TrayCommand};

#[test]
fn stopping_reaches_the_latest_installation() {
    let mut state = AppState::default();
    let first = state.begin_install(1);
    let other = state.begin_install(2);
    let second = state.begin_install(1);
    assert!(!state.is_cancelled(first) && !state.is_cancelled(other) && !state.is_cancelled(second));
    state.stop_install(1);
    assert!(!state.is_cancelled(first));
    assert!(!state.is_cancelled(other));
    assert!(state.is_cancelled(second));
    state.stop_install(2);
    assert!(state.is_cancelled(other));
    let third = state.begin_install(1);
    assert!(!state.is_cancelled(third));
    assert!(state.is_cancelled(second));
}

#[test]
fn unknown_environments_can_be_stopped() {
    let mut state = AppState::default();
    state.stop_install(9);
    let ticket = state.begin_install(9);
    assert!(!state.is_cancelled(ticket));
    assert!(!state.is_cancelled(ticket + 1));
}

#[test]
fn tray_knows_its_entries() {
    assert_eq!(tray_command("show"), TrayCommand::Show);
    assert_eq!(tray_command("quit"), TrayCommand::Quit);
    assert_eq!(tray_command("Show"), TrayCommand::Ignore);
    assert_eq!(tray_command(""), TrayCommand::Ignore);
}

#[test]
fn toggling_maximizes_unless_maximized() {
    assert!(toggle_maximizes(Some(false)));
    assert!(toggle_maximizes(None));
    assert!(!toggle_maximizes(Some(true)));
}
