use keystroke::input::device::{get_primary_keyboard, is_keyboard, KeyboardDevice};

fn dev(path: &str, name: &str) -> KeyboardDevice {
    KeyboardDevice {
        path: path.to_string(),
        name: name.to_string(),
    }
}

#[test]
fn test_is_keyboard_classification() {
    assert!(is_keyboard(true, true, true, true));
    assert!(!is_keyboard(false, true, true, true));
    assert!(!is_keyboard(true, false, true, true));
    assert!(!is_keyboard(true, true, false, true));
    assert!(!is_keyboard(true, true, true, false));
}

#[test]
fn test_primary_keyboard_prefers_physical() {
    let devs = vec![
        dev("/dev/input/event0", "Virtual Keyboard"),
        dev("/dev/input/event1", "AT Translated Set 2 keyboard"),
    ];
    let picked = get_primary_keyboard(&devs).unwrap();
    assert_eq!(picked.name, "AT Translated Set 2 keyboard");
    assert_eq!(picked.path, "/dev/input/event1");
}

#[test]
fn test_primary_keyboard_virtual_match_is_case_insensitive() {
    let devs = vec![
        dev("/dev/input/event0", "My VIRTUAL kbd"),
        dev("/dev/input/event1", "Laptop keys"),
    ];
    let picked = get_primary_keyboard(&devs).unwrap();
    assert_eq!(picked.name, "Laptop keys");
}

#[test]
fn test_primary_keyboard_falls_back_to_first() {
    let devs = vec![
        dev("/dev/input/event0", "virtual one"),
        dev("/dev/input/event1", "virtual two"),
    ];
    let picked = get_primary_keyboard(&devs).unwrap();
    assert_eq!(picked.name, "virtual one");
}

#[test]
fn test_primary_keyboard_empty() {
    let devs: Vec<KeyboardDevice> = Vec::new();
    assert!(get_primary_keyboard(&devs).is_none());
}
