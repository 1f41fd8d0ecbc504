use keystroke::compositor::niri::NiriClient;
use keystroke::compositor::{KeyboardLayouts, LayoutEvent};
use keystroke::input::layout::apply_layout_event;

fn create_test_client() -> NiriClient {
    NiriClient::new(String::new())
}

#[test]
fn test_parse_layouts_response() {
    let client = create_test_client();

    let json = r#"{"Ok":{"KeyboardLayouts":{"names":["English (US)","German","French"],"current_idx":1}}}"#;

    let layouts = client.parse_layouts_response(json);
    assert_eq!(layouts.names.len(), 3);
    assert_eq!(layouts.names[0], "English (US)");
    assert_eq!(layouts.names[1], "German");
    assert_eq!(layouts.names[2], "French");
    assert_eq!(layouts.current_idx, 1);
    assert_eq!(layouts.current_name(), Some("German"));
}

#[test]
fn test_parse_layouts_response_single() {
    let client = create_test_client();

    let json = r#"{"Ok":{"KeyboardLayouts":{"names":["English (US)"],"current_idx":0}}}"#;

    let layouts = client.parse_layouts_response(json);
    assert_eq!(layouts.names.len(), 1);
    assert_eq!(layouts.current_idx, 0);
}

#[test]
fn test_extract_names_array() {
    let client = create_test_client();

    let json = r#"{"names":["English","Deutsch","Francais"]}"#;
    let names = client.extract_names_array(json);

    assert!(names.is_some());
    let names = names.unwrap();
    assert_eq!(names.len(), 3);
    assert_eq!(names[0], "English");
    assert_eq!(names[1], "Deutsch");
    assert_eq!(names[2], "Francais");
}

#[test]
fn test_extract_names_with_special_chars() {
    let client = create_test_client();

    let json = r#"{"names":["English (US)","German (Qwertz)"]}"#;
    let names = client.extract_names_array(json);

    assert!(names.is_some());
    let names = names.unwrap();
    assert_eq!(names.len(), 2);
    assert_eq!(names[0], "English (US)");
    assert_eq!(names[1], "German (Qwertz)");
}

#[test]
fn test_extract_names_with_escapes() {
    let client = create_test_client();
    let json = "{\"names\":[\"Say \\\"hi\\\"\"]}";
    let names = client.extract_names_array(json).unwrap();
    assert_eq!(names, vec!["Say \"hi\"".to_string()]);
}

#[test]
fn test_extract_names_missing() {
    let client = create_test_client();
    assert!(client.extract_names_array("{}").is_none());
    assert!(client.extract_names_array(r#"{"names":[]}"#).is_none());
    assert!(client.extract_names_array(r#"{"names":"#).is_none());
}

#[test]
fn test_extract_current_idx() {
    let client = create_test_client();

    let json = r#"{"current_idx":2}"#;
    let idx = client.extract_current_idx(json);
    assert_eq!(idx, Some(2));
}

#[test]
fn test_extract_current_idx_missing_or_bad() {
    let client = create_test_client();
    assert_eq!(client.extract_current_idx("{}"), None);
    assert_eq!(client.extract_current_idx(r#"{"current_idx":}"#), None);
    assert_eq!(
        client.extract_current_idx(r#"{"current_idx": 99999999999999999999999999}"#),
        None
    );
}

#[test]
fn test_parse_event_layout_switched() {
    let client = create_test_client();

    let line = r#"{"Event":{"KeyboardLayoutSwitched":{"idx":1}}}"#;
    let event = client.parse_event(line);

    assert!(event.is_some());
    if let Some(LayoutEvent::LayoutSwitched { index, .. }) = event {
        assert_eq!(index, 1);
    } else {
        panic!("Expected LayoutSwitched event");
    }
}

#[test]
fn test_parse_event_unrelated() {
    let client = create_test_client();

    let line = r#"{"Event":{"WindowFocused":{"id":123}}}"#;
    let event = client.parse_event(line);

    assert!(event.is_none());
}

#[test]
fn test_extract_event_layout_index() {
    let client = create_test_client();
    let json = r#"{"Event":{"KeyboardLayoutSwitched":{"idx":3}}}"#;
    assert_eq!(client.extract_event_layout_index(json), Some(3));
}

#[test]
fn test_is_subscribe_ack() {
    assert!(NiriClient::is_subscribe_ack(r#"{"Ok":"Handled"}"#));
    assert!(NiriClient::is_subscribe_ack(r#"{"Handled":null}"#));
    assert!(!NiriClient::is_subscribe_ack(r#"{"Err":"nope"}"#));
}

#[test]
fn test_switch_event_resolves_name_from_cache() {
    let client = create_test_client();
    let mut cache = KeyboardLayouts {
        names: vec!["English (US)".to_string(), "German".to_string()],
        current_idx: 0,
    };
    let ev = client
        .parse_event(r#"{"Event":{"KeyboardLayoutSwitched":{"idx":1}}}"#)
        .unwrap();
    let resolved = apply_layout_event(&mut cache, ev);
    assert_eq!(cache.current_idx, 1);
    match resolved {
        LayoutEvent::LayoutSwitched { name, index } => {
            assert_eq!(name, "German");
            assert_eq!(index, 1);
        }
        other => panic!("expected a switch event, got {:?}", other),
    }
}

#[test]
fn test_switch_event_out_of_range_leaves_name_empty() {
    let client = create_test_client();
    let mut cache = KeyboardLayouts {
        names: vec!["English (US)".to_string()],
        current_idx: 0,
    };
    let ev = client
        .parse_event(r#"{"Event":{"KeyboardLayoutSwitched":{"idx":7}}}"#)
        .unwrap();
    let resolved = apply_layout_event(&mut cache, ev);
    assert_eq!(cache.current_idx, 7);
    match resolved {
        LayoutEvent::LayoutSwitched { name, index } => {
            assert_eq!(name, "");
            assert_eq!(index, 7);
        }
        other => panic!("expected a switch event, got {:?}", other),
    }
}

#[test]
fn test_layouts_changed_replaces_cache() {
    let client = create_test_client();
    let mut cache = KeyboardLayouts::default();
    let ev = client
        .parse_event(
            r#"{"Event":{"KeyboardLayoutsChanged":{"keyboard_layouts":{"names":["French"],"current_idx":0}}}}"#,
        )
        .unwrap();
    let _ = apply_layout_event(&mut cache, ev);
    assert_eq!(cache.names, vec!["French".to_string()]);
    assert_eq!(cache.current_idx, 0);
}

#[test]
fn test_extraction_idempotent() {
    let client = create_test_client();
    let json = r#"{"Ok":{"KeyboardLayouts":{"names":["English (US)","German"],"current_idx":1}}}"#;
    let first = client.parse_layouts_response(json);
    let second = client.parse_layouts_response(json);
    assert_eq!(first, second);
    assert_eq!(first.names, second.names);
}
