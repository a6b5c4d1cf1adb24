//! Concrete checks of the library's general laws and boundary behaviors.

use std::collections::hash_map::DefaultHasher;
use std::hash::{Hash, Hasher};

use japanese_codepoints::CodePoints;

#[test]
fn union_is_superset_of_both_operands() {
    let a = CodePoints::new(vec![0x3042, 0x3044]);
    let b = CodePoints::new(vec![0x3044, 0x3046]);
    let u = a.union(&b);
    assert!(u.is_superset_of(&a));
    assert!(u.is_superset_of(&b));
}

#[test]
fn intersection_is_subset_of_both_operands() {
    let a = CodePoints::new(vec![0x3042, 0x3044]);
    let b = CodePoints::new(vec![0x3044, 0x3046]);
    let i = a.intersection(&b);
    assert!(i.is_subset_of(&a));
    assert!(i.is_subset_of(&b));
}

#[test]
fn difference_leaves_nothing_of_the_subtrahend() {
    let a = CodePoints::new(vec![0x41, 0x42, 0x43]);
    let b = CodePoints::new(vec![0x42, 0x44]);
    assert!(a.difference(&b).intersection(&b).is_empty());
}

#[test]
fn symmetric_difference_matches_decomposition() {
    let a = CodePoints::new(vec![0x41, 0x42, 0x43]);
    let b = CodePoints::new(vec![0x42, 0x43, 0x44]);
    let direct = a.symmetric_difference(&b);
    let decomposed = a.union(&b).difference(&a.intersection(&b));
    assert_eq!(direct, decomposed);
}

#[test]
fn union_and_intersection_are_idempotent() {
    let a = CodePoints::new(vec![0x3042, 0x3044, 0x3046]);
    assert_eq!(a.union(&a), a);
    assert_eq!(a.intersection(&a), a);
}

#[test]
fn construction_order_and_duplicates_are_irrelevant() {
    let a = CodePoints::new(vec![0x3046, 0x3042, 0x3044, 0x3042]);
    let b = CodePoints::new(vec![0x3042, 0x3044, 0x3046]);
    let c = CodePoints::from_string("ういあいあ");
    assert_eq!(a, b);
    assert_eq!(a, c);

    let mut h1 = DefaultHasher::new();
    let mut h2 = DefaultHasher::new();
    a.hash(&mut h1);
    b.hash(&mut h2);
    assert_eq!(h1.finish(), h2.finish());
}

#[test]
fn all_excluded_has_no_duplicates_and_keeps_first_occurrence_order() {
    let empty = CodePoints::new(vec![]);
    assert_eq!(empty.all_excluded("baab"), vec![0x62, 0x61]);

    let cp = CodePoints::new(vec![0x61]); // a
    assert_eq!(cp.all_excluded("cabcab"), vec![0x63, 0x62]);
}

#[test]
fn every_set_contains_the_empty_text() {
    let sets = [
        CodePoints::new(vec![]),
        CodePoints::new(vec![0x3042]),
        CodePoints::ascii_printable(),
    ];
    for s in &sets {
        assert!(s.contains(""));
        assert_eq!(s.first_excluded(""), None);
    }
}

#[test]
fn cached_accessors_equal_their_builders() {
    assert_eq!(CodePoints::ascii_control_cached(), CodePoints::ascii_control());
    assert_eq!(CodePoints::ascii_printable_cached(), CodePoints::ascii_printable());
    assert_eq!(CodePoints::crlf_cached(), CodePoints::crlf());
    assert_eq!(CodePoints::ascii_all_cached(), CodePoints::ascii_all());
}

#[test]
fn ascii_all_is_union_of_control_and_printable() {
    let all = CodePoints::ascii_all();
    assert_eq!(all, CodePoints::ascii_control().union(&CodePoints::ascii_printable()));
    assert_eq!(all.len(), 128);
    assert_eq!(CodePoints::ascii_control().len(), 33);
    assert_eq!(CodePoints::ascii_printable().len(), 95);
    assert_eq!(CodePoints::crlf().len(), 2);
}

#[test]
fn supplementary_plane_character_counts_as_one_position() {
    let cp = CodePoints::new(vec![0x2000B, 0x3042]); // 𠀋, あ
    // The character after the supplementary-plane one sits at index 2.
    assert_eq!(cp.first_excluded_with_position("𠀋あい"), Some((0x3044, 2)));
    assert_eq!(cp.first_excluded_with_position("あ𠀋x"), Some((0x78, 2)));
}

#[test]
fn largest_scalar_value_is_an_ordinary_member() {
    let cp = CodePoints::from_string("\u{10FFFF}");
    assert_eq!(cp.len(), 1);
    assert!(cp.contains("\u{10FFFF}"));
    assert!(!cp.contains("a"));
    assert_eq!(cp.all_excluded("a\u{10FFFF}b"), vec![0x61, 0x62]);
}

#[test]
fn iter_yields_each_code_point_once_in_ascending_order() {
    let cp = CodePoints::new(vec![0x3046, 0x3042, 0x3044, 0x3042]);
    assert_eq!(cp.iter(), vec![0x3042, 0x3044, 0x3046]);

    let kanji_like = CodePoints::from_string("ういあ");
    assert_eq!(kanji_like.iter(), vec![0x3042, 0x3044, 0x3046]);
}

#[test]
fn contains_cp_tests_a_single_scalar_value() {
    let cp = CodePoints::new(vec![0x3042, 0x2000B]);
    assert!(cp.contains_cp(0x3042));
    assert!(cp.contains_cp(0x2000B));
    assert!(!cp.contains_cp(0x3044));
    assert!(!cp.contains_cp(0));
}
