//! Tests of the core `CodePoints` type: construction, membership,
//! exclusion diagnostics, set algebra and multi-set membership.

use std::collections::hash_map::DefaultHasher;
use std::hash::{Hash, Hasher};

use japanese_codepoints::CodePoints;

#[test]
fn test_new() {
    let cp = CodePoints::new(vec![0x3041, 0x3042]); // あ, い
    assert_eq!(cp.len(), 2);
}

#[test]
fn test_from_string() {
    let cp = CodePoints::from_string("あい");
    assert_eq!(cp.len(), 2);
    assert!(cp.contains("あ"));
    assert!(cp.contains("い"));
}

#[test]
fn test_contains() {
    let cp = CodePoints::new(vec![0x3042, 0x3044]); // あ, い
    assert!(cp.contains("あ"));
    assert!(cp.contains("い"));
    assert!(cp.contains("あい"));
    assert!(!cp.contains("う"));
    assert!(!cp.contains("あいう"));
}

#[test]
fn test_contains_null_and_empty() {
    let cp = CodePoints::new(vec![0x3042, 0x3044]); // あ, い

    // Test empty string (should be valid)
    assert!(cp.contains(""));

    // Test with space character (not in our set, should be invalid)
    assert!(!cp.contains(" ")); // Space character not in set
}

#[test]
fn test_contains_surrogate_pairs() {
    // Test with surrogate pair characters (like emoji)
    let surrogate_char = "𠀋"; // U+2000B, a surrogate pair
    let cp = CodePoints::new(vec![0x2000B, 0x3042, 0x3044]); // surrogate + あ, い

    assert!(cp.contains(surrogate_char));
    assert!(cp.contains(&format!("{}あい", surrogate_char)));
    assert!(!cp.contains(&format!("{}あいか", surrogate_char))); // か not in set
}

#[test]
fn test_contains_mixed_characters() {
    let cp = CodePoints::new(vec![0x3042, 0x3044, 0x3046, 0x3048, 0x304A, 0x2000B]); // あ,い,う,え,お + surrogate

    let test_str = format!("{}あいうあ", "𠀋"); // surrogate + あいうあ
    assert!(cp.contains(&test_str));

    let invalid_str = format!("{}あいうか", "𠀋"); // surrogate + あいうか (か not in set)
    assert!(!cp.contains(&invalid_str));
}

#[test]
fn test_first_excluded() {
    let cp = CodePoints::new(vec![0x3042, 0x3044]); // あ, い
    assert_eq!(cp.first_excluded("あい"), None);
    assert_eq!(cp.first_excluded("あいう"), Some(0x3046)); // う
}

#[test]
fn test_first_excluded_with_surrogate_pairs() {
    let cp = CodePoints::new(vec![0x3042, 0x3044, 0x2000B]); // あ, い, surrogate

    let test_str = format!("{}あい", "𠀋");
    assert_eq!(cp.first_excluded(&test_str), None);

    let invalid_str = format!("{}あいう", "𠀋");
    assert_eq!(cp.first_excluded(&invalid_str), Some(0x3046)); // う
}

#[test]
fn test_all_excluded() {
    let cp = CodePoints::new(vec![0x3042, 0x3044]); // あ, い
    let excluded = cp.all_excluded("あいうえ");
    assert_eq!(excluded, vec![0x3046, 0x3048]); // う, え
}

#[test]
fn test_all_excluded_with_surrogate_pairs() {
    let cp = CodePoints::new(vec![0x3042, 0x3044, 0x2000B]); // あ, い, surrogate

    let test_str = format!("{}あいう", "𠀋");
    let excluded = cp.all_excluded(&test_str);
    assert_eq!(excluded, vec![0x3046]); // う

    // Test with multiple invalid characters including surrogate pairs
    let test_str2 = format!("{}あいうきかくか{}", "𠀋", "𠂟"); // き,か,く not in set, 2nd surrogate not in set
    let excluded2 = cp.all_excluded(&test_str2);
    // all_excluded guarantees order, so no need to sort
    assert_eq!(excluded2, vec![0x3046, 0x304D, 0x304B, 0x304F, 0x2009F]); // う,き,か,く,2nd surrogate
}

#[test]
fn test_union() {
    let cp1 = CodePoints::new(vec![0x3042, 0x3044]); // あ, い
    let cp2 = CodePoints::new(vec![0x3044, 0x3046]); // い, う
    let union = cp1.union(&cp2);
    assert_eq!(union.len(), 3);
    assert!(union.contains("あいう"));
}

#[test]
fn test_intersection() {
    let cp1 = CodePoints::new(vec![0x3042, 0x3044]); // あ, い
    let cp2 = CodePoints::new(vec![0x3044, 0x3046]); // い, う
    let intersection = cp1.intersection(&cp2);
    assert_eq!(intersection.len(), 1);
    assert!(intersection.contains("い"));
    assert!(!intersection.contains("あ"));
    assert!(!intersection.contains("う"));
}

#[test]
fn test_difference() {
    let cp1 = CodePoints::new(vec![0x3042, 0x3044]); // あ, い
    let cp2 = CodePoints::new(vec![0x3044, 0x3046]); // い, う
    let difference = cp1.difference(&cp2);
    assert_eq!(difference.len(), 1);
    assert!(difference.contains("あ"));
    assert!(!difference.contains("い"));
}

#[test]
fn codepoints_test_ascii_control() {
    let cp = CodePoints::ascii_control();
    assert!(cp.contains("\n"));
    assert!(cp.contains("\r"));
    assert!(cp.contains("\t"));
    assert!(!cp.contains("a"));
    assert!(!cp.contains("あ"));
}

#[test]
fn codepoints_test_ascii_printable() {
    let cp = CodePoints::ascii_printable();
    assert!(cp.contains("Hello"));
    assert!(cp.contains("123"));
    assert!(cp.contains("!@#$%"));
    assert!(!cp.contains("\n"));
    assert!(!cp.contains("あ"));

    // Test specific characters
    assert!(cp.contains("Hello~"));
    assert!(cp.contains("\\100"));
    assert!(!cp.contains("Hello‾")); // Overline character
    assert!(!cp.contains("¥100")); // Yen symbol
}

#[test]
fn codepoints_test_crlf() {
    let cp = CodePoints::crlf();
    assert!(cp.contains("\n"));
    assert!(cp.contains("\r"));
    assert!(!cp.contains("a"));
    assert!(!cp.contains("\t"));
}

#[test]
fn test_ascii_all() {
    let cp = CodePoints::ascii_all();
    assert!(cp.contains("Hello"));
    assert!(cp.contains("\n"));
    assert!(cp.contains("\r"));
    assert!(cp.contains("123"));
    assert!(!cp.contains("あ"));
}

#[test]
fn test_first_excluded_with_position() {
    let cp = CodePoints::new(vec![0x3042, 0x3044]); // あ, い
    assert_eq!(cp.first_excluded_with_position("あい"), None);
    // う at position 2
    assert_eq!(cp.first_excluded_with_position("あいう"), Some((0x3046, 2)));
}

#[test]
fn test_is_subset_of() {
    let cp1 = CodePoints::new(vec![0x3042, 0x3044]); // あ, い
    let cp2 = CodePoints::new(vec![0x3042, 0x3044, 0x3046]); // あ, い, う
    assert!(cp1.is_subset_of(&cp2));
    assert!(!cp2.is_subset_of(&cp1));
}

#[test]
fn test_symmetric_difference() {
    let cp1 = CodePoints::new(vec![0x3042, 0x3044]); // あ, い
    let cp2 = CodePoints::new(vec![0x3044, 0x3046]); // い, う
    let diff = cp1.symmetric_difference(&cp2);
    assert_eq!(diff.len(), 2);
    assert!(diff.contains("あ"));
    assert!(diff.contains("う"));
    assert!(!diff.contains("い"));
}

#[test]
fn test_equals_and_hashcode() {
    let cp1 = CodePoints::new(vec![0x3042, 0x3044]); // あ, い
    let cp2 = CodePoints::new(vec![0x3042, 0x3044]); // あ, い
    let cp3 = CodePoints::new(vec![0x3042, 0x3044, 0x3046]); // あ, い, う

    assert_eq!(cp1, cp2);
    assert_ne!(cp1, cp3);

    // Hash codes should be equal for equal objects
    let mut hasher1 = DefaultHasher::new();
    let mut hasher2 = DefaultHasher::new();

    cp1.hash(&mut hasher1);
    cp2.hash(&mut hasher2);

    assert_eq!(hasher1.finish(), hasher2.finish());
}

#[test]
fn test_from_string_with_duplicates() {
    let cp = CodePoints::from_string("あいあい"); // Duplicate characters
    assert_eq!(cp.len(), 2); // Should deduplicate
    assert!(cp.contains("あ"));
    assert!(cp.contains("い"));
}

#[test]
fn test_empty_codepoints() {
    let cp = CodePoints::new(vec![]);
    assert!(cp.is_empty());
    assert_eq!(cp.len(), 0);
    assert!(cp.contains("")); // Empty string should be valid
    assert!(!cp.contains("a")); // Any non-empty string should be invalid
}

#[test]
fn test_intersection_with_empty_sets() {
    let cp1 = CodePoints::new(vec![0x3042, 0x3044]); // あ, い
    let cp2 = CodePoints::new(vec![]); // Empty set

    let intersection = cp1.intersection(&cp2);
    assert!(intersection.is_empty());

    let intersection2 = cp2.intersection(&cp1);
    assert!(intersection2.is_empty());
}

#[test]
fn test_union_with_empty_sets() {
    let cp1 = CodePoints::new(vec![0x3042, 0x3044]); // あ, い
    let cp2 = CodePoints::new(vec![]); // Empty set

    let union = cp1.union(&cp2);
    assert_eq!(union.len(), 2);
    assert!(union.contains("あい"));

    let union2 = cp2.union(&cp1);
    assert_eq!(union2.len(), 2);
    assert!(union2.contains("あい"));
}

#[test]
fn test_difference_with_empty_sets() {
    let cp1 = CodePoints::new(vec![0x3042, 0x3044]); // あ, い
    let cp2 = CodePoints::new(vec![]); // Empty set

    let difference = cp1.difference(&cp2);
    assert_eq!(difference.len(), 2);
    assert!(difference.contains("あい"));

    let difference2 = cp2.difference(&cp1);
    assert!(difference2.is_empty());
}

#[test]
fn test_contains_surrogate_pairs_not_allowed() {
    // Test that surrogate pairs are not allowed when not in the set
    let cp = CodePoints::new(vec![0x3042, 0x3044, 0x3046]); // あ, い, う
    let surrogate_char = "𠀋"; // U+2000B

    let test_str = format!("{}あいうあ{}", surrogate_char, surrogate_char);
    assert!(!cp.contains(&test_str));
}

#[test]
fn test_first_excluded_with_surrogate_pairs_not_allowed() {
    let cp = CodePoints::new(vec![0x3042, 0x3044, 0x3046]); // あ, い, う
    let surrogate_char = "𠀋"; // U+2000B

    let test_str = format!("{}あいうかき", surrogate_char);
    assert_eq!(cp.first_excluded(&test_str), Some(0x2000B)); // First excluded is surrogate
}

#[test]
fn test_all_excluded_with_multiple_surrogate_pairs() {
    let cp = CodePoints::new(vec![0x3042, 0x3044, 0x3046]); // あ, い, う
    let surrogate1 = "𠀋"; // U+2000B
    let surrogate2 = "𠂟"; // U+2009F

    let test_str = format!("{}あいうきかくか{}", surrogate1, surrogate2);
    let excluded = cp.all_excluded(&test_str);
    assert_eq!(excluded, vec![0x2000B, 0x304D, 0x304B, 0x304F, 0x2009F]); // surrogate1, き, か, く, surrogate2
}

#[test]
fn test_first_excluded_null_and_empty() {
    let cp = CodePoints::new(vec![0x3042, 0x3044]); // あ, い

    // Test empty string (should return None)
    assert_eq!(cp.first_excluded(""), None);
}

#[test]
fn test_all_excluded_null_and_empty() {
    let cp = CodePoints::new(vec![0x3042, 0x3044]); // あ, い

    // Test empty string (should return empty vector)
    assert_eq!(cp.all_excluded(""), vec![] as Vec<u32>);
}

#[test]
fn test_contains_all_in_any() {
    let hiragana = CodePoints::new(vec![0x3042, 0x3044, 0x3046]); // あ, い, う
    let katakana = CodePoints::new(vec![0x30A2, 0x30A4, 0x30A6]); // ア, イ, ウ
    let ascii = CodePoints::ascii_printable();

    // Test with empty list
    assert!(!CodePoints::contains_all_in_any("test", &[]));

    // Test where one collection accepts all characters
    assert!(CodePoints::contains_all_in_any("あい", &[hiragana.clone()]));
    assert!(CodePoints::contains_all_in_any("アイ", &[katakana.clone()]));

    // Test mixed characters that are valid in different collections
    let mixed_collections = [hiragana.clone(), katakana.clone()];
    assert!(CodePoints::contains_all_in_any("あア", &mixed_collections)); // あ in hiragana, ア in katakana
    assert!(CodePoints::contains_all_in_any("いイ", &mixed_collections)); // い in hiragana, イ in katakana

    // Test with characters not in any collection
    assert!(!CodePoints::contains_all_in_any("xyz", &mixed_collections)); // Latin chars not in either

    // Test with some valid, some invalid characters
    assert!(!CodePoints::contains_all_in_any("あアx", &mixed_collections)); // x not in either collection

    // Test with three collections
    let three_collections = [hiragana, katakana, ascii];
    assert!(CodePoints::contains_all_in_any("あアA", &three_collections)); // Each char in different collection
    assert!(CodePoints::contains_all_in_any("Hello", &three_collections)); // All in ASCII
    assert!(!CodePoints::contains_all_in_any("あアAπ", &three_collections)); // π not in any collection

    // Test empty string (should be valid for any non-empty collection list)
    assert!(CodePoints::contains_all_in_any("", &three_collections));
}

#[test]
fn test_contains_all_in_any_edge_cases() {
    let cp1 = CodePoints::new(vec![0x3042]); // あ
    let cp2 = CodePoints::new(vec![0x3044]); // い

    // Character that appears in multiple collections
    let cp3 = CodePoints::new(vec![0x3042, 0x3046]); // あ, う
    let collections = [cp1, cp2, cp3];

    assert!(CodePoints::contains_all_in_any("あ", &collections)); // あ in cp1 and cp3
    assert!(CodePoints::contains_all_in_any("い", &collections)); // い in cp2
    assert!(CodePoints::contains_all_in_any("う", &collections)); // う in cp3
    assert!(!CodePoints::contains_all_in_any("え", &collections)); // え not in any
}
