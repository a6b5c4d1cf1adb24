//! Tests of single-set and multi-set validation and their error values.

use japanese_codepoints::CodePoints;

#[test]
fn validate_accepts_contained_text() {
    let cp = CodePoints::ascii_printable();
    assert!(cp.validate("Hello World!").is_ok());
    assert!(cp.validate("").is_ok());
}

#[test]
fn validate_reports_first_offending_character() {
    let cp = CodePoints::ascii_printable();
    let err = cp.validate("Hello\0World").unwrap_err();
    assert_eq!(err.code_point, 0);
    assert_eq!(err.position, 5);
}

#[test]
fn validate_message_names_character_code_point_and_position() {
    let cp = CodePoints::new(vec![0x61, 0x62]); // a, b
    let err = cp.validate("abc").unwrap_err();
    assert_eq!(err.code_point, 0x63);
    assert_eq!(err.position, 2);
    assert_eq!(err.message, "invalid character 'c' (U+0063) at position 2");

    let hira = CodePoints::new(vec![0x3042]); // あ
    let err2 = hira.validate("あい").unwrap_err();
    assert_eq!(err2.message, "invalid character 'い' (U+3044) at position 1");
}

#[test]
fn validate_counts_characters_not_encoded_units() {
    let cp = CodePoints::new(vec![0x2000B, 0x3042]); // 𠀋, あ
    let err = cp.validate("𠀋あい").unwrap_err();
    assert_eq!(err.code_point, 0x3044);
    assert_eq!(err.position, 2);
}

#[test]
fn validate_all_in_any_accepts_text_covered_by_some_set() {
    let hiragana = CodePoints::new(vec![0x3042, 0x3044, 0x3046]);
    let katakana = CodePoints::new(vec![0x30A2, 0x30A4, 0x30A6]);
    let sets = [hiragana, katakana];
    assert!(CodePoints::validate_all_in_any("あア", &sets).is_ok());
    assert!(CodePoints::validate_all_in_any("", &sets).is_ok());
}

#[test]
fn validate_all_in_any_reports_first_uncovered_character() {
    let hiragana = CodePoints::new(vec![0x3042, 0x3044, 0x3046]);
    let katakana = CodePoints::new(vec![0x30A2, 0x30A4, 0x30A6]);
    let sets = [hiragana, katakana];
    let err = CodePoints::validate_all_in_any("あアx", &sets).unwrap_err();
    assert_eq!(err.code_point, 0x78);
    assert_eq!(err.position, 2);
}

#[test]
fn validate_all_in_any_with_empty_list_accepts_only_empty_text() {
    // With no sets, no character can be covered: only the empty text
    // validates, vacuously.
    assert!(CodePoints::validate_all_in_any("", &[]).is_ok());
    let err = CodePoints::validate_all_in_any("any", &[]).unwrap_err();
    assert_eq!(err.code_point, 0x61);
    assert_eq!(err.position, 0);
}
