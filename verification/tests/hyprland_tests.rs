use keystroke::compositor::hyprland::HyprlandClient;
use keystroke::compositor::KeyboardLayouts;
use keystroke::input::layout::apply_layout_switch;

fn test_client() -> HyprlandClient {
    HyprlandClient::new(String::new(), String::new())
}

#[test]
fn test_parse_devices_response() {
    let client = test_client();

    let json = r#"{
        "keyboards": [
            {
                "name": "keyboard1",
                "active_keymap": "English (US)"
            },
            {
                "name": "keyboard2",
                "active_keymap": "German"
            }
        ]
    }"#;

    let layouts = client.parse_devices_response(json);
    assert_eq!(layouts.names.len(), 2);
    assert!(layouts.names.contains(&"English (US)".to_string()));
    assert!(layouts.names.contains(&"German".to_string()));
}

#[test]
fn test_parse_devices_response_duplicates() {
    let client = test_client();

    let json = r#"{
        "keyboards": [
            {"active_keymap": "English (US)"},
            {"active_keymap": "English (US)"},
            {"active_keymap": "German"}
        ]
    }"#;

    let layouts = client.parse_devices_response(json);
    assert_eq!(layouts.names.len(), 2);
}

#[test]
fn test_parse_devices_response_order() {
    let client = test_client();
    let json = r#"{"keyboards":[{"active_keymap":"German"},{"active_keymap":"English (US)"},{"active_keymap":"German"}]}"#;
    let layouts = client.parse_devices_response(json);
    assert_eq!(layouts.names, vec!["German".to_string(), "English (US)".to_string()]);
    assert_eq!(layouts.current_idx, 0);
}

#[test]
fn test_parse_devices_response_malformed() {
    let client = test_client();
    assert_eq!(client.parse_devices_response("").names.len(), 0);
    assert_eq!(client.parse_devices_response("{\"active_keymap\"").names.len(), 0);
    assert_eq!(client.parse_devices_response("\"active_keymap\": \"\"").names.len(), 0);
}

#[test]
fn test_parse_event() {
    let line = "activelayout>>keyboard-name,English (US)";
    let result = HyprlandClient::parse_event(line);
    assert_eq!(result, Some(("activelayout", "keyboard-name,English (US)")));
}

#[test]
fn test_parse_event_no_separator() {
    assert_eq!(HyprlandClient::parse_event("justtext"), None);
}

#[test]
fn test_parse_layout_event() {
    let data = "at-keyboard,English (US)";
    let result = HyprlandClient::parse_layout_event(data);
    assert_eq!(result, Some(("at-keyboard", "English (US)")));
}

#[test]
fn test_parse_layout_event_splits_at_first_comma() {
    let result = HyprlandClient::parse_layout_event("kbd,English (US, intl.)");
    assert_eq!(result, Some(("kbd", "English (US, intl.)")));
}

#[test]
fn test_is_layout_event() {
    assert!(HyprlandClient::is_layout_event("activelayout"));
    assert!(!HyprlandClient::is_layout_event("workspace"));
}

#[test]
fn test_active_layout_event_updates_cache() {
    let mut cache = KeyboardLayouts {
        names: vec!["English (US)".to_string()],
        current_idx: 0,
    };
    let line = "activelayout>>kbd0,German";
    let (name, data) = HyprlandClient::parse_event(line).unwrap();
    assert!(HyprlandClient::is_layout_event(name));
    let (_keyboard, layout_name) = HyprlandClient::parse_layout_event(data).unwrap();
    let ev = apply_layout_switch(&mut cache, layout_name);
    assert_eq!(cache.names, vec!["English (US)".to_string(), "German".to_string()]);
    assert_eq!(cache.current_idx, 1);
    match ev {
        keystroke::compositor::LayoutEvent::LayoutSwitched { name, index } => {
            assert_eq!(name, "German");
            assert_eq!(index, 1);
        }
        other => panic!("expected a switch event, got {:?}", other),
    }
}

#[test]
fn test_known_layout_event_moves_index() {
    let mut cache = KeyboardLayouts {
        names: vec!["English (US)".to_string(), "German".to_string()],
        current_idx: 1,
    };
    let ev = apply_layout_switch(&mut cache, "English (US)");
    assert_eq!(cache.names.len(), 2);
    assert_eq!(cache.current_idx, 0);
    match ev {
        keystroke::compositor::LayoutEvent::LayoutSwitched { name, index } => {
            assert_eq!(name, "English (US)");
            assert_eq!(index, 0);
        }
        other => panic!("expected a switch event, got {:?}", other),
    }
}
