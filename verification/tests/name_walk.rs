use fontserve::name_table::{collect_names, parse_name_table, ParseError, ParsedNames, RawName};
use fontserve::record::{build_record, FontInput};

fn rec(name_id: u16, unicode: bool, language: &str, text: Option<&str>) -> RawName {
    RawName {
        name_id,
        unicode,
        language: language.to_string(),
        text: text.map(|t| t.to_string()),
    }
}

#[test]
fn family_names_bucketed_by_language() {
    let names = vec![
        rec(1, true, "English", Some("Alpha")),
        rec(1, true, "Chinese", Some("甲")),
        rec(2, true, "English", Some("Bold")),
    ];
    let (english, chinese, style) = collect_names(&names);
    assert_eq!(english.as_deref(), Some("Alpha"));
    assert_eq!(chinese.as_deref(), Some("甲"));
    assert_eq!(style.as_deref(), Some("Bold"));
}

#[test]
fn later_records_overwrite_earlier_ones() {
    let names = vec![
        rec(1, true, "English", Some("Alpha")),
        rec(16, true, "English", Some("Beta")),
        rec(2, true, "English", Some("Regular")),
        rec(2, true, "English", Some("Italic")),
    ];
    let (english, _, style) = collect_names(&names);
    assert_eq!(english.as_deref(), Some("Beta"));
    assert_eq!(style.as_deref(), Some("Italic"));
}

#[test]
fn later_record_with_undecodable_text_still_wins() {
    let names = vec![
        rec(1, true, "English", Some("Alpha")),
        rec(16, true, "English", None),
    ];
    let (english, _, _) = collect_names(&names);
    assert_eq!(english, None);
}

#[test]
fn non_unicode_records_are_skipped() {
    let names = vec![
        rec(1, false, "English", Some("Alpha")),
        rec(2, false, "English", Some("Bold")),
    ];
    let (english, chinese, style) = collect_names(&names);
    assert_eq!(english, None);
    assert_eq!(chinese, None);
    assert_eq!(style, None);
}

#[test]
fn other_languages_are_ignored() {
    let names = vec![
        rec(1, true, "French", Some("Alpha")),
        rec(16, true, "German", Some("Beta")),
    ];
    let (english, chinese, _) = collect_names(&names);
    assert_eq!(english, None);
    assert_eq!(chinese, None);
}

fn parsed(english: Option<&str>, chinese: Option<&str>, style: Option<&str>) -> ParsedNames {
    ParsedNames {
        english_family: english.map(|s| s.to_string()),
        chinese_family: chinese.map(|s| s.to_string()),
        style: style.map(|s| s.to_string()),
        post_script: Some("TestPS".to_string()),
        full_name: "Test Full".to_string(),
        weight: 400,
    }
}

fn file_input(path: &str) -> FontInput {
    FontInput {
        path: Some(path.to_string()),
        face_index: 0,
        data: Vec::new(),
    }
}

#[test]
fn record_with_both_languages_is_english_first() {
    let input = file_input("/fonts/a.ttf");
    let record = build_record(&input, parsed(Some("Alpha"), Some("甲"), Some("Bold")));
    assert_eq!(record.family_name.len(), 2);
    assert_eq!(record.family_name[0].language, "English");
    assert_eq!(record.family_name[0].font_family.as_deref(), Some("Alpha"));
    assert_eq!(record.family_name[0].style.as_deref(), Some("Bold"));
    assert_eq!(record.family_name[1].language, "Chinese");
    assert_eq!(record.family_name[1].font_family.as_deref(), Some("甲"));
    assert_eq!(record.family_name[1].style.as_deref(), Some("Bold"));
}

#[test]
fn record_with_english_only_has_one_entry() {
    let input = file_input("/fonts/a.ttf");
    let record = build_record(&input, parsed(Some("Alpha"), None, None));
    assert_eq!(record.family_name.len(), 1);
    assert_eq!(record.family_name[0].language, "English");
    assert_eq!(record.family_name[0].font_family.as_deref(), Some("Alpha"));
    assert_eq!(record.family_name[0].style, None);
}

#[test]
fn record_fields_follow_the_handle() {
    let input = file_input("/usr/share/fonts/DejaVu.ttf");
    let record = build_record(&input, parsed(None, None, None));
    assert_eq!(record.family_name.len(), 0);
    assert_eq!(record.file_name, "DejaVu.ttf");
    assert_eq!(record.path, "/usr/share/fonts/DejaVu.ttf");
    assert_eq!(record.font_name, "Test Full");
    assert_eq!(record.post_script.as_deref(), Some("TestPS"));
    assert_eq!(record.weight, 400);
}

#[test]
fn in_memory_handle_uses_the_sentinel() {
    let input = FontInput {
        path: None,
        face_index: 0,
        data: Vec::new(),
    };
    let record = build_record(&input, parsed(Some("Alpha"), None, None));
    assert_eq!(record.file_name, "Memory-Loaded Font");
    assert_eq!(record.path, "Memory-Loaded Font");
}

#[test]
fn garbage_bytes_give_a_parse_error_not_a_crash() {
    let garbage = b"this is not a font container at all".to_vec();
    assert!(matches!(parse_name_table(&garbage, 0), Err(ParseError::NotAFont)));
    assert!(matches!(parse_name_table(&Vec::new(), 0), Err(ParseError::NotAFont)));
    let truncated = vec![0x00, 0x01, 0x00, 0x00, 0x00];
    assert!(matches!(parse_name_table(&truncated, 0), Err(ParseError::NotAFont)));
}
