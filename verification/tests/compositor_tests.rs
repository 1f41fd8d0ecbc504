use keystroke::compositor::{detect, Compositor, KeyboardLayouts};

#[test]
fn test_keyboard_layouts_default() {
    let layouts = KeyboardLayouts::default();
    assert!(layouts.is_empty());
    assert_eq!(layouts.len(), 0);
    assert!(layouts.current_name().is_none());
}

#[test]
fn test_keyboard_layouts_with_data() {
    let layouts = KeyboardLayouts {
        names: vec!["English (US)".to_string(), "German".to_string()],
        current_idx: 1,
    };
    assert!(!layouts.is_empty());
    assert_eq!(layouts.len(), 2);
    assert_eq!(layouts.current_name(), Some("German"));
}

#[test]
fn test_keyboard_layouts_index_out_of_range() {
    let layouts = KeyboardLayouts {
        names: vec!["English (US)".to_string()],
        current_idx: 5,
    };
    assert!(layouts.current_name().is_none());
}

#[test]
fn test_compositor_supports_layout_query() {
    assert!(Compositor::Hyprland.supports_layout_query());
    assert!(Compositor::Sway.supports_layout_query());
    assert!(Compositor::Niri.supports_layout_query());
    assert!(!Compositor::River.supports_layout_query());
    assert!(!Compositor::Unknown.supports_layout_query());
}

#[test]
fn test_compositor_display() {
    assert_eq!(Compositor::Hyprland.display_name(), "Hyprland");
    assert_eq!(Compositor::Sway.display_name(), "Sway");
    assert_eq!(Compositor::Niri.display_name(), "Niri");
}

#[test]
fn test_detection_env_vars() {
    assert_eq!(
        Compositor::Hyprland.detection_env_var(),
        Some("HYPRLAND_INSTANCE_SIGNATURE")
    );
    assert_eq!(Compositor::Sway.detection_env_var(), Some("SWAYSOCK"));
    assert_eq!(Compositor::Niri.detection_env_var(), Some("NIRI_SOCKET"));
    assert_eq!(Compositor::River.detection_env_var(), None);
}

#[test]
fn test_detect_socket_priority() {
    assert_eq!(detect(true, true, true, true, None), Compositor::Hyprland);
    assert_eq!(detect(false, true, true, true, None), Compositor::Sway);
    assert_eq!(detect(false, false, true, true, None), Compositor::Niri);
    assert_eq!(detect(false, false, false, true, None), Compositor::Wayfire);
    assert_eq!(detect(false, false, false, false, None), Compositor::Unknown);
}

#[test]
fn test_detect_desktop_substring() {
    assert_eq!(
        detect(false, false, false, false, Some("River")),
        Compositor::River
    );
    assert_eq!(
        detect(false, false, false, false, Some("my-dwl-session")),
        Compositor::Dwl
    );
    assert_eq!(
        detect(false, false, false, false, Some("LabWC")),
        Compositor::Labwc
    );
    assert_eq!(
        detect(false, false, false, false, Some("Hyprland")),
        Compositor::Hyprland
    );
    assert_eq!(
        detect(false, false, false, false, Some("sway")),
        Compositor::Sway
    );
    assert_eq!(
        detect(false, false, false, false, Some("niri")),
        Compositor::Niri
    );
    assert_eq!(
        detect(false, false, false, false, Some("GNOME")),
        Compositor::Unknown
    );
}
