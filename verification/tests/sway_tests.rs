use keystroke::compositor::sway::SwayClient;

fn create_test_client() -> SwayClient {
    SwayClient::new(String::new())
}

#[test]
fn test_build_header() {
    let header = SwayClient::build_header(0, 100);

    assert_eq!(&header[0..6], b"i3-ipc");

    assert_eq!(u32::from_le_bytes(header[6..10].try_into().unwrap()), 0);

    assert_eq!(u32::from_le_bytes(header[10..14].try_into().unwrap()), 100);
}

#[test]
fn test_header_round_trip() {
    let header = SwayClient::build_header(70000, 2);
    assert_eq!(header.len(), 14);
    assert_eq!(SwayClient::parse_header(&header), Some((70000, 2)));
}

#[test]
fn test_parse_header_rejects_bad_magic() {
    let mut header = SwayClient::build_header(5, 100);
    header[0] = b'x';
    assert_eq!(SwayClient::parse_header(&header), None);
    assert_eq!(SwayClient::parse_header(&vec![0u8; 13]), None);
}

#[test]
fn test_parse_inputs_response() {
    let client = create_test_client();

    let json = r#"[
        {
            "type": "keyboard",
            "xkb_layout_names": ["English (US)", "German", "French"],
            "xkb_active_layout_index": 1,
            "xkb_active_layout_name": "German"
        }
    ]"#;

    let layouts = client.parse_inputs_response(json);
    assert_eq!(layouts.names.len(), 3);
    assert_eq!(layouts.names[0], "English (US)");
    assert_eq!(layouts.names[1], "German");
    assert_eq!(layouts.names[2], "French");
    assert_eq!(layouts.current_idx, 1);
    assert_eq!(layouts.current_name(), Some("German"));
}

#[test]
fn test_parse_inputs_response_no_array() {
    let client = create_test_client();

    let json = r#"[
        {
            "type": "keyboard",
            "xkb_active_layout_name": "English (US)"
        }
    ]"#;

    let layouts = client.parse_inputs_response(json);
    assert_eq!(layouts.names.len(), 1);
    assert_eq!(layouts.names[0], "English (US)");
}

#[test]
fn test_parse_inputs_response_two_layouts_active_second() {
    let client = create_test_client();
    let json = r#"{"xkb_layout_names":["English (US)","German"],"xkb_active_layout_index":1}"#;
    let layouts = client.parse_inputs_response(json);
    assert_eq!(
        layouts.names,
        vec!["English (US)".to_string(), "German".to_string()]
    );
    assert_eq!(layouts.current_name(), Some("German"));
}

#[test]
fn test_parse_inputs_response_dedups_across_devices() {
    let client = create_test_client();
    let json = r#"[
        {"xkb_layout_names": ["English (US)", "German"]},
        {"xkb_layout_names": ["German", "French"]}
    ]"#;
    let layouts = client.parse_inputs_response(json);
    assert_eq!(
        layouts.names,
        vec!["English (US)".to_string(), "German".to_string()]
    );
}

#[test]
fn test_extract_layout_names_array() {
    let client = create_test_client();

    let json = r#"{"xkb_layout_names": ["English", "Deutsch", "Francais"]}"#;
    let names = client.extract_layout_names_array(json);

    assert!(names.is_some());
    let names = names.unwrap();
    assert_eq!(names.len(), 3);
    assert_eq!(names[0], "English");
    assert_eq!(names[1], "Deutsch");
    assert_eq!(names[2], "Francais");
}

#[test]
fn test_extract_active_layout_index() {
    let client = create_test_client();

    let json = r#"{"xkb_active_layout_index": 2}"#;
    let idx = client.extract_active_layout_index(json);
    assert_eq!(idx, Some(2));
}

#[test]
fn test_extract_active_layout_name() {
    let client = create_test_client();
    let json = r#"{"xkb_active_layout_name": "German"}"#;
    assert_eq!(
        client.extract_active_layout_name(json),
        Some("German".to_string())
    );
    assert_eq!(
        client.extract_active_layout_name(r#"{"xkb_active_layout_name": ""}"#),
        None
    );
    assert_eq!(client.extract_active_layout_name("{}"), None);
}

#[test]
fn test_is_layout_update_payload() {
    assert!(SwayClient::is_layout_update_payload(
        r#"{"input":{"xkb_layout":"German"}}"#
    ));
    assert!(SwayClient::is_layout_update_payload(
        r#"{"input":{"xkb_keymap":"x"}}"#
    ));
    assert!(!SwayClient::is_layout_update_payload(
        r#"{"input":{"type":"pointer"}}"#
    ));
}
