//! Tests of each standard's character data, queried through the pre-built
//! sets.

use japanese_codepoints::jisx0208::{
    BoxDrawingChars, CyrillicLetters, GreekLetters, Hiragana, Katakana, LatinLetters,
    SpecialChars,
};
use japanese_codepoints::{
    CodePoints, JisX0201Katakana, JisX0201LatinLetters, JisX0208Kanji, JisX0213Kanji,
};

#[test]
fn tests_test_ascii_printable() {
    let cp = CodePoints::ascii_printable();
    assert!(cp.contains("Hello World 123!@#"));
    assert!(!cp.contains("Hello World\n")); // \n is a control character
    assert_eq!(cp.first_excluded("a-b-c-あ"), Some(0x3042)); // あ
}

#[test]
fn tests_test_ascii_control() {
    let cp = CodePoints::ascii_control();
    assert!(cp.contains("\n\r\t"));
    assert!(!cp.contains("a\n\r\t"));
    assert_eq!(cp.first_excluded("\n\rA\t"), Some(0x0041)); // A
}

#[test]
fn tests_test_crlf() {
    let cp = CodePoints::crlf();
    assert!(cp.contains("\r\n"));
    assert!(!cp.contains("\r\n\t"));
    assert_eq!(cp.first_excluded("\r\n\t"), Some(0x0009)); // \t
}

#[test]
fn test_jisx0201_katakana() {
    let katakana = JisX0201Katakana::new();
    let cp = katakana.codepoints();
    assert!(cp.contains("｡｢｣､･ｦｧｨｩｪｫｬｭｮｯｰｱｲｳｴｵｶｷｸｹｺｻｼｽｾｿﾀﾁﾂﾃﾄﾅﾆﾇﾈﾉﾊﾋﾌﾍﾎﾏﾐﾑﾒﾓﾔﾕﾖﾗﾘﾙﾚﾛﾜﾝﾞﾟ"));
    assert!(!cp.contains("アイウエオ")); // Full-width katakana
    assert_eq!(cp.first_excluded("ﾊﾝｶｸA"), Some(0x0041)); // A
}

#[test]
fn test_jisx0201_latin_letters() {
    let latin = JisX0201LatinLetters::new();
    let cp = latin.codepoints();
    assert!(cp.contains("ABCDEFGHIJKLMNOPQRSTUVWXYZ"));
    assert!(cp.contains("¥‾")); // Special characters for JIS X 0201 variant
    assert!(!cp.contains("Hello\\World")); // Backslash is different in some variants
    assert_eq!(cp.first_excluded("abc\\"), Some(0x005C)); // \
}

#[test]
fn test_jisx0208_hiragana() {
    let hiragana = Hiragana::new();
    let cp = hiragana.codepoints();
    assert!(cp.contains("あいうえお"));
    assert!(cp.contains("がぎぐげご"));
    assert!(!cp.contains("アイウエオ")); // Katakana
    assert!(!cp.contains("漢字")); // Kanji
    assert_eq!(cp.first_excluded("ひらがなA"), Some(0x0041)); // A
}

#[test]
fn test_jisx0208_katakana() {
    let katakana = Katakana::new();
    let cp = katakana.codepoints();
    assert!(cp.contains("アイウエオ"));
    assert!(cp.contains("ガギグゲゴ"));
    assert!(!cp.contains("あいうえお")); // Hiragana
    assert_eq!(cp.first_excluded("カタカナa"), Some(0x0061)); // a
}

#[test]
fn test_jisx0208_latin_letters() {
    let latin = LatinLetters::new();
    let cp = latin.codepoints();
    assert!(cp.contains("ＡＢＣＤＥＦＧ"));
    assert!(cp.contains("ａｂｃｄｅｆｇ"));
    assert!(cp.contains("０１２３４５６７８９"));
    assert!(!cp.contains("ABCDEFG")); // Half-width
    assert_eq!(cp.first_excluded("ＺＥＮＫＡＫＵ1"), Some(0x0031)); // 1
}

#[test]
fn test_jisx0208_greek_letters() {
    let greek = GreekLetters::new();
    let cp = greek.codepoints();
    assert!(cp.contains("ΑΒΓΔΕΖΗΘΙΚΛΜΝΞΟΠΡΣΤΥΦΧΨΩ"));
    assert!(cp.contains("αβγδεζηθικλμνξοπρστυφχψω"));
    assert!(!cp.contains("ABC"));
}

#[test]
fn test_jisx0208_cyrillic_letters() {
    let cyrillic = CyrillicLetters::new();
    let cp = cyrillic.codepoints();
    assert!(cp.contains("АБВГДЕЁЖЗИЙКЛМНОПРСТУФХЦЧШЩЪЫЬЭЮЯ"));
    assert!(cp.contains("абвгдеёжзийклмнопрстуфхцчшщъыьэюя"));
    assert!(!cp.contains("ABC"));
}

#[test]
fn test_jisx0208_box_drawing_chars() {
    let boxes = BoxDrawingChars::new();
    let cp = boxes.codepoints();
    assert!(cp.contains("─│┌┐┘└├┬┤┴┼"));
    assert!(!cp.contains("-|"));
}

#[test]
fn test_jisx0208_special_chars() {
    let special = SpecialChars::new();
    let cp = special.codepoints();
    assert!(cp.contains("、。，．・：；？！"));
    assert!(!cp.contains("abc"));
}

#[test]
fn test_jisx0208_kanji() {
    let kanji = JisX0208Kanji::new();
    let cp = &kanji.all;
    assert!(cp.contains(
        "亜唖娃阿哀愛挨姶逢葵茜穐悪握渥旭葦芦鯵梓圧斡扱宛姐虻飴絢綾鮎或粟袷安庵按暗案闇鞍杏"
    )); // Level 1
    assert!(cp.contains("弌丐丕个丱丶丼丿乂乖乘亂亅豫亊舒弍于亞亟亠亢亰亳亶从仍仄仆仂仗")); // Level 2
    assert!(!cp.contains("a"));
    assert!(!cp.contains("あ"));
    assert!(!cp.contains("ア"));
}

#[test]
fn test_jisx0213_kanji() {
    let kanji = JisX0213Kanji::new();
    // Level 1
    assert!(kanji.contains(
        "亜唖娃阿哀愛挨姶逢葵茜穐悪握渥旭葦芦鯵梓圧斡扱宛姐虻飴絢綾鮎或粟袷安庵按暗案闇鞍杏"
    ));
    // Level 2
    assert!(kanji.contains("弌丐丕个丱丶丼丿乂乖乘亂亅豫亊舒弍于亞亟亠亢亰亳亶从仍仄仆仂仗"));
    // Test some Level 3 kanji (CJK Unified Ideographs Extension A)
    assert!(kanji.contains("㐂㠯㒵"));
    // Test some Level 4 kanji (CJK Unified Ideographs Extension B)
    assert!(kanji.contains("俱剝頰"));
    assert!(!kanji.contains("a"));
    assert!(!kanji.contains("あ"));
    assert!(!kanji.contains("ア"));
}
