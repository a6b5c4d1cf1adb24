//! Tests of the JIS X 0208 and JIS X 0213 kanji sets.

use japanese_codepoints::{JisX0208Kanji, JisX0213Kanji};

#[test]
fn test_jisx0208kanji_new() {
    let kanji = JisX0208Kanji::new();
    assert_eq!(kanji.codepoints_vec().len(), 6355);
}

#[test]
fn test_jisx0208kanji_default() {
    let kanji = JisX0208Kanji::default();
    assert_eq!(kanji.codepoints_vec().len(), 6355);
}

#[test]
fn test_jisx0208kanji_contains_common_kanji() {
    let kanji = JisX0208Kanji::new();
    let codepoints = kanji.codepoints_vec();

    // Test some common kanji
    assert!(codepoints.contains(&0x4E9C)); // 亜
    assert!(codepoints.contains(&0x611B)); // 愛
    assert!(codepoints.contains(&0x5B89)); // 安
    assert!(codepoints.contains(&0x4EE5)); // 以
    assert!(codepoints.contains(&0x4F0A)); // 伊
    assert!(codepoints.contains(&0x4F4D)); // 位
    assert!(codepoints.contains(&0x4E00)); // 一
    assert!(codepoints.contains(&0x4E59)); // 乙
    assert!(codepoints.contains(&0x738B)); // 王
    assert!(codepoints.contains(&0x9EC4)); // 黄
}

#[test]
fn test_jisx0208kanji_contains_level2_kanji() {
    let kanji = JisX0208Kanji::new();
    let codepoints = kanji.codepoints_vec();

    // Test some Level 2 kanji
    assert!(codepoints.contains(&0x582F)); // 堯 (84-01)
    assert!(codepoints.contains(&0x69C7)); // 槇 (84-02)
    assert!(codepoints.contains(&0x9059)); // 遙 (84-03)
    assert!(codepoints.contains(&0x7464)); // 瑤 (84-04)
    assert!(codepoints.contains(&0x51DC)); // 凜 (84-05)
    assert!(codepoints.contains(&0x7199)); // 熙 (84-06)
}

#[test]
fn test_jisx0208kanji_contains() {
    let kanji = JisX0208Kanji::new();

    // Test containing kanji
    assert!(kanji.contains("亜愛安以伊位一乙王黄"));

    // Test not containing non-kanji
    assert!(!kanji.contains("ABC123"));

    // Test mixed content
    assert!(!kanji.contains("亜ABC愛"));
}

#[test]
fn test_jisx0213kanji_new() {
    let kanji = JisX0213Kanji::new();
    assert_eq!(kanji.codepoints_vec().len(), 10050);
}

#[test]
fn test_jisx0213kanji_default() {
    let kanji = JisX0213Kanji::default();
    assert_eq!(kanji.codepoints_vec().len(), 10050);
}

#[test]
fn test_jisx0213kanji_contains() {
    let kanji = JisX0213Kanji::new();

    // Test some common kanji
    assert!(kanji.contains("亜"));
    assert!(kanji.contains("愛"));
    assert!(kanji.contains("安"));
    assert!(kanji.contains("以"));
    assert!(kanji.contains("伊"));
    assert!(kanji.contains("位"));
    assert!(kanji.contains("一"));
    assert!(kanji.contains("乙"));
    assert!(kanji.contains("王"));
    assert!(kanji.contains("黄"));

    // Test some Level 3 and 4 kanji
    assert!(kanji.contains("堯"));
    assert!(kanji.contains("槇"));
    assert!(kanji.contains("遙"));
    assert!(kanji.contains("瑤"));
    assert!(kanji.contains("凜"));
    assert!(kanji.contains("熙"));

    // Test mixed strings with Level 1-2 kanji
    assert!(kanji.contains("亜愛安以伊位一乙王黄"));

    // Test Level 3-4 kanji unique to JIS X 0213
    assert!(kanji.contains("堯槇遙瑤凜熙"));
    assert!(kanji.contains("龕龠龢")); // Only test characters that exist in JIS X 0213

    // Test strings containing non-kanji
    assert!(!kanji.contains("亜A愛"));
    assert!(!kanji.contains("123"));
    assert!(kanji.contains("")); // Empty string contains no invalid characters
}
