use keystroke::bubble::{
    is_ignored_key, is_modifier_key, key_to_char, BubbleInput, KeyPressTracker, ModifierState,
};
use keystroke::input::keymap::Key;

#[test]
fn test_is_ignored_key() {
    assert!(is_ignored_key(Key::LeftCtrl));
    assert!(is_ignored_key(Key::RightAlt));
    assert!(is_ignored_key(Key::LeftMeta));
    assert!(is_ignored_key(Key::F1));
    assert!(!is_ignored_key(Key::A));
    assert!(!is_ignored_key(Key::Space));
}

#[test]
fn test_is_modifier_key_both_hands() {
    assert!(is_modifier_key(Key::LeftShift));
    assert!(is_modifier_key(Key::RightShift));
    assert!(!is_modifier_key(Key::Enter));
}

#[test]
fn test_key_to_char_decisions() {
    assert_eq!(key_to_char(Key::Enter, None), Some(BubbleInput::NewLine));
    assert_eq!(key_to_char(Key::KpEnter, None), Some(BubbleInput::NewLine));
    assert_eq!(key_to_char(Key::Backspace, None), Some(BubbleInput::Backspace));
    assert_eq!(key_to_char(Key::Delete, None), Some(BubbleInput::Backspace));
    assert_eq!(key_to_char(Key::F5, Some("x")), None);
    assert_eq!(key_to_char(Key::A, Some("a")), Some(BubbleInput::Char('a')));
    assert_eq!(key_to_char(Key::A, Some("A")), Some(BubbleInput::Char('A')));
    assert_eq!(key_to_char(Key::A, None), None);
    assert_eq!(key_to_char(Key::A, Some("")), None);
    assert_eq!(key_to_char(Key::Tab, Some("\t")), Some(BubbleInput::Char(' ')));
    assert_eq!(key_to_char(Key::Esc, Some("\u{1b}")), None);
    assert_eq!(key_to_char(Key::C, Some("\u{3}")), None);
}

#[test]
fn test_modifier_state_updates() {
    let mut m = ModifierState::default();
    assert!(!m.has_command_modifier());
    m.update(Key::LeftCtrl, true);
    assert!(m.ctrl);
    assert!(m.has_command_modifier());
    m.update(Key::A, true);
    assert!(m.ctrl);
    m.update(Key::LeftCtrl, false);
    assert!(!m.has_command_modifier());
}

#[test]
fn test_modifier_state_hands_interchangeable() {
    let mut left = ModifierState::default();
    left.update(Key::LeftMeta, true);
    let mut right = ModifierState::default();
    right.update(Key::RightMeta, true);
    assert_eq!(left, right);
    assert!(right.super_key);

    let mut l2 = ModifierState::default();
    l2.update(Key::LeftAlt, true);
    let mut r2 = ModifierState::default();
    r2.update(Key::RightAlt, true);
    assert_eq!(l2, r2);
}

#[test]
fn test_press_tracker_depth() {
    let mut t = KeyPressTracker::new();
    assert_eq!(t.depth(Key::A), 0);
    t.press(Key::A);
    t.press(Key::A);
    assert_eq!(t.depth(Key::A), 2);
    assert!(!t.release(Key::A));
    assert_eq!(t.depth(Key::A), 1);
    assert!(t.release(Key::A));
    assert_eq!(t.depth(Key::A), 0);
}

#[test]
fn test_press_tracker_untracked_release_forwards() {
    let mut t = KeyPressTracker::new();
    assert!(t.release(Key::Q));
}

#[test]
fn test_press_tracker_keys_independent() {
    let mut t = KeyPressTracker::new();
    t.press(Key::A);
    t.press(Key::B);
    assert!(t.release(Key::A));
    assert_eq!(t.depth(Key::B), 1);
}
