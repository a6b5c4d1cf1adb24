//! Tests of the JIS X 0201 wrapper types.

use japanese_codepoints::jisx0201::{JisX0201, Katakana, LatinLetters};

#[test]
fn jisx0201_test_katakana_new() {
    let katakana = Katakana::new();
    assert!(!katakana.codepoints().is_empty());
}

#[test]
fn jisx0201_test_latin_letters_new() {
    let latin = LatinLetters::new();
    assert!(!latin.codepoints().is_empty());
}

#[test]
fn jisx0201_test_katakana_contains() {
    let katakana = Katakana::new();
    assert!(katakana.contains("ｱｲｳｴｵ"));
    assert!(katakana.contains("｡｢｣､･"));
    assert!(!katakana.contains("あいうえお")); // Fullwidth hiragana
    assert!(!katakana.contains("アイウエオ")); // Fullwidth katakana
    assert!(!katakana.contains("Hello")); // Latin letters
}

#[test]
fn jisx0201_test_latin_letters_contains() {
    let latin = LatinLetters::new();
    assert!(latin.contains("Hello"));
    assert!(latin.contains("¥100"));
    assert!(latin.contains("‾")); // Overline
    assert!(!latin.contains("ｱｲｳｴｵ")); // Halfwidth katakana
    assert!(!latin.contains("あいうえお")); // Fullwidth hiragana
}

#[test]
fn jisx0201_full_set_covers_both_halves() {
    let all = JisX0201::new();
    assert!(all.contains("Hello World"));
    assert!(all.contains("ｱｲｳｴｵ"));
    assert!(all.contains("¥｡｢｣､･"));
    assert!(all.contains("‾ﾟ"));
    assert!(!all.contains("あ"));
    assert_eq!(all.codepoints().len(), 95 + 63);
}
