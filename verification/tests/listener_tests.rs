use keystroke::input::keymap::Key;
use keystroke::input::listener::{
    process_raw_events, KeyEvent, ListenerConfig, PressedKeys, RawKeyEvent,
};

#[test]
fn test_listener_config_default() {
    let config = ListenerConfig::default();
    assert!(config.all_keyboards);
    assert!(config.ignored_keys.is_empty());
}

#[test]
fn test_process_raw_events_classification() {
    let mut pressed = PressedKeys::new();
    let ignored: Vec<Key> = Vec::new();
    let events = vec![
        RawKeyEvent { key: Key::A, value: 1 },
        RawKeyEvent { key: Key::A, value: 2 },
        RawKeyEvent { key: Key::A, value: 0 },
        RawKeyEvent { key: Key::B, value: 5 },
    ];
    let (out, activity) = process_raw_events(&mut pressed, &ignored, &events);
    assert!(activity);
    assert_eq!(out.len(), 3);
    match &out[0] {
        KeyEvent::Pressed(kd) => {
            assert_eq!(kd.key, Key::A);
            assert!(!kd.is_repeat);
        }
        other => panic!("expected a press, got {:?}", other),
    }
    match &out[1] {
        KeyEvent::Pressed(kd) => assert!(kd.is_repeat),
        other => panic!("expected a repeat press, got {:?}", other),
    }
    match &out[2] {
        KeyEvent::Released(kd) => assert_eq!(kd.key, Key::A),
        other => panic!("expected a release, got {:?}", other),
    }
    assert!(!pressed.contains(Key::A));
}

#[test]
fn test_process_raw_events_tracks_pressed() {
    let mut pressed = PressedKeys::new();
    let ignored: Vec<Key> = Vec::new();
    let events = vec![
        RawKeyEvent { key: Key::A, value: 1 },
        RawKeyEvent { key: Key::B, value: 1 },
        RawKeyEvent { key: Key::A, value: 1 },
    ];
    let (_, _) = process_raw_events(&mut pressed, &ignored, &events);
    assert!(pressed.contains(Key::A));
    assert!(pressed.contains(Key::B));
    assert_eq!(pressed.len(), 2);
}

#[test]
fn test_process_raw_events_ignored_keys() {
    let mut pressed = PressedKeys::new();
    let ignored = vec![Key::A];
    let events = vec![RawKeyEvent { key: Key::A, value: 1 }];
    let (out, activity) = process_raw_events(&mut pressed, &ignored, &events);
    assert!(out.is_empty());
    assert!(!activity);
    assert!(!pressed.contains(Key::A));
}

#[test]
fn test_stuck_key_synthesizes_one_release() {
    let mut pressed = PressedKeys::new();
    let ignored: Vec<Key> = Vec::new();
    let events = vec![
        RawKeyEvent { key: Key::A, value: 1 },
        RawKeyEvent { key: Key::B, value: 1 },
    ];
    let _ = process_raw_events(&mut pressed, &ignored, &events);

    // The device's authoritative state no longer reports `A`.
    let actual = vec![Key::B];
    let evs = pressed.reconcile(&actual);
    let releases_of_a = evs
        .iter()
        .filter(|e| matches!(e, KeyEvent::Released(kd) if kd.key == Key::A))
        .count();
    assert_eq!(releases_of_a, 1);
    assert_eq!(evs.len(), 1);
    assert!(!pressed.contains(Key::A));
    assert!(pressed.contains(Key::B));
}

#[test]
fn test_reconcile_keeps_reported_keys() {
    let mut pressed = PressedKeys::new();
    let ignored: Vec<Key> = Vec::new();
    let events = vec![RawKeyEvent { key: Key::C, value: 1 }];
    let _ = process_raw_events(&mut pressed, &ignored, &events);
    let evs = pressed.reconcile(&vec![Key::C]);
    assert!(evs.is_empty());
    assert!(pressed.contains(Key::C));
}
