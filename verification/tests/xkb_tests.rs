use keystroke::input::xkb::parse_layout_name;

#[test]
fn test_parse_layout_name_direct() {
    assert_eq!(
        parse_layout_name("Spanish (Latin American)"),
        ("latam".to_string(), "".to_string())
    );
    assert_eq!(
        parse_layout_name("English (US)"),
        ("us".to_string(), "".to_string())
    );
    assert_eq!(
        parse_layout_name("German"),
        ("de".to_string(), "".to_string())
    );
    assert_eq!(
        parse_layout_name("French (Canada)"),
        ("ca".to_string(), "fr".to_string())
    );
}

#[test]
fn test_parse_layout_name_fallback() {
    let (layout, _) = parse_layout_name("Unknown Layout XYZ");
    assert_eq!(layout, "us");
}

#[test]
fn test_parse_layout_name_short() {
    assert_eq!(parse_layout_name("us"), ("us".to_string(), "".to_string()));
    assert_eq!(parse_layout_name("de"), ("de".to_string(), "".to_string()));
    assert_eq!(
        parse_layout_name("latam"),
        ("latam".to_string(), "".to_string())
    );
}

#[test]
fn test_parse_layout_name_case_insensitive() {
    assert_eq!(
        parse_layout_name("german"),
        ("de".to_string(), "".to_string())
    );
    assert_eq!(
        parse_layout_name("SPANISH (LATIN AMERICAN)"),
        ("latam".to_string(), "".to_string())
    );
}

#[test]
fn test_parse_layout_name_paren_heuristic() {
    assert_eq!(
        parse_layout_name("German (Nonsense Variant)"),
        ("de".to_string(), "".to_string())
    );
    assert_eq!(
        parse_layout_name("Japanese (OADG)"),
        ("jp".to_string(), "".to_string())
    );
}

#[test]
fn test_parse_layout_name_variants() {
    assert_eq!(
        parse_layout_name("English (Dvorak)"),
        ("us".to_string(), "dvorak".to_string())
    );
    assert_eq!(
        parse_layout_name("German (Neo)"),
        ("de".to_string(), "neo".to_string())
    );
    assert_eq!(
        parse_layout_name("Turkish (F)"),
        ("tr".to_string(), "f".to_string())
    );
}

#[test]
fn test_parse_layout_name_trimmed_short_code() {
    assert_eq!(
        parse_layout_name("  fr  "),
        ("fr".to_string(), "".to_string())
    );
}
