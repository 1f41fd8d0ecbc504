use keystroke::input::keymap::{
    is_modifier, is_super_key, key_to_display_name, normalize_modifier, Key, KeyDisplay,
};

#[test]
fn test_key_to_display_name() {
    assert_eq!(key_to_display_name(Key::A), "A");
    assert_eq!(key_to_display_name(Key::LeftCtrl), "󰘴");
    assert_eq!(key_to_display_name(Key::Space), "󱁐");
}

#[test]
fn test_is_modifier() {
    assert!(is_modifier(Key::LeftCtrl));
    assert!(is_modifier(Key::RightShift));
    assert!(!is_modifier(Key::A));
}

#[test]
fn test_is_super_key() {
    assert!(is_super_key(Key::LeftMeta));
    assert!(is_super_key(Key::RightMeta));
    assert!(!is_super_key(Key::LeftCtrl));
}

#[test]
fn test_normalize_modifier() {
    assert_eq!(normalize_modifier(Key::RightCtrl), Key::LeftCtrl);
    assert_eq!(normalize_modifier(Key::A), Key::A);
}

#[test]
fn test_normalize_modifier_all_hands() {
    assert_eq!(normalize_modifier(Key::RightShift), Key::LeftShift);
    assert_eq!(normalize_modifier(Key::RightAlt), Key::LeftAlt);
    assert_eq!(normalize_modifier(Key::RightMeta), Key::LeftMeta);
}

#[test]
fn test_key_codes_round_trip() {
    for k in [Key::A, Key::Z, Key::Space, Key::LeftShift, Key::Enter, Key::Kp5, Key::Fn] {
        assert_eq!(Key::from_code(k.code()), Some(k));
    }
    assert_eq!(Key::from_code(0), None);
    assert_eq!(Key::from_code(30), Some(Key::A));
    assert_eq!(Key::from_code(57), Some(Key::Space));
}

#[test]
fn test_key_display_entries() {
    let d = KeyDisplay::new(Key::B, true);
    assert_eq!(d.key, Key::B);
    assert_eq!(d.display_name, "B");
    assert!(d.pressed);
    assert!(!d.is_repeat);

    let r = KeyDisplay::new_repeat(Key::B);
    assert!(r.pressed);
    assert!(r.is_repeat);
}
