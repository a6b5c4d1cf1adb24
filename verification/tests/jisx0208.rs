//! Tests of the JIS X 0208 wrapper types.

use japanese_codepoints::jisx0208::{
    BoxDrawingChars, CyrillicLetters, GreekLetters, Hiragana, JisX0208, Katakana, LatinLetters,
    SpecialChars,
};

#[test]
fn test_hiragana_new() {
    let hiragana = Hiragana::new();
    assert!(!hiragana.codepoints().is_empty());
}

#[test]
fn test_hiragana_contains() {
    let hiragana = Hiragana::new();
    assert!(hiragana.contains("あいうえお"));
    assert!(!hiragana.contains("アイウエオ"));
}

#[test]
fn jisx0208_test_katakana_new() {
    let katakana = Katakana::new();
    assert!(!katakana.codepoints().is_empty());
}

#[test]
fn jisx0208_test_katakana_contains() {
    let katakana = Katakana::new();
    assert!(katakana.contains("アイウエオ"));
    assert!(!katakana.contains("あいうえお"));
}

#[test]
fn jisx0208_test_latin_letters_new() {
    let latin = LatinLetters::new();
    assert!(!latin.codepoints().is_empty());
}

#[test]
fn jisx0208_test_latin_letters_contains() {
    let latin = LatinLetters::new();
    assert!(latin.contains("ＡＢＣ"));
    assert!(latin.contains("ａｂｃ"));
    assert!(latin.contains("１２３"));
    assert!(!latin.contains("ABC"));
}

#[test]
fn test_greek_letters_new() {
    let greek = GreekLetters::new();
    assert!(!greek.codepoints().is_empty());
}

#[test]
fn test_greek_letters_contains() {
    let greek = GreekLetters::new();
    assert!(greek.contains("ΑΒΓ"));
    assert!(greek.contains("αβγ"));
}

#[test]
fn test_cyrillic_letters_new() {
    let cyrillic = CyrillicLetters::new();
    assert!(!cyrillic.codepoints().is_empty());
}

#[test]
fn test_cyrillic_letters_contains() {
    let cyrillic = CyrillicLetters::new();
    assert!(cyrillic.contains("АБВ"));
    assert!(cyrillic.contains("абв"));
}

#[test]
fn test_special_chars_new() {
    let special = SpecialChars::new();
    assert!(!special.codepoints().is_empty());
}

#[test]
fn test_special_chars_contains() {
    let special = SpecialChars::new();
    assert!(special.contains("、。"));
    assert!(special.contains("☆★"));
    assert!(special.contains("→←"));
}

#[test]
fn test_box_drawing_chars_new() {
    let box_drawing = BoxDrawingChars::new();
    assert!(!box_drawing.codepoints().is_empty());
}

#[test]
fn test_box_drawing_chars_contains() {
    let box_drawing = BoxDrawingChars::new();
    assert!(box_drawing.contains("─│┌┐"));
    assert!(box_drawing.contains("└┘├┤"));
}

#[test]
fn test_jisx0208_new() {
    let jisx0208 = JisX0208::new();
    assert!(!jisx0208.codepoints().is_empty());
}

#[test]
fn test_jisx0208_contains() {
    let jisx0208 = JisX0208::new();
    assert!(jisx0208.contains("あいうえお"));
    assert!(jisx0208.contains("アイウエオ"));
    assert!(jisx0208.contains("ＡＢＣ"));
    assert!(jisx0208.contains("ΑΒΓ"));
    assert!(jisx0208.contains("、。☆★"));
    assert!(!jisx0208.contains("漢字")); // Kanji not included
}
