use keystroke::tray::{TrayAction, TrayState};

#[test]
fn test_tray_state_default_running() {
    let s = TrayState::default();
    assert!(!s.paused);
    assert_eq!(s.status_text(), "Running");
    assert_eq!(s.pause_label(), "Pause");
}

#[test]
fn test_tray_state_toggle() {
    let mut s = TrayState::default();
    s.toggle();
    assert!(s.paused);
    assert_eq!(s.status_text(), "Paused");
    assert_eq!(s.pause_label(), "Resume");
    s.toggle();
    assert!(!s.paused);
}

#[test]
fn test_tray_actions_distinct() {
    assert_ne!(TrayAction::ShowLauncher, TrayAction::Quit);
    assert_eq!(TrayAction::TogglePause, TrayAction::TogglePause);
}
