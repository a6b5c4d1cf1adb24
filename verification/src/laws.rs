//! The general laws of the library, each stated and proved once: vacuous
//! containment of the empty text, the exclusion list's shape, and the
//! algebra of the set operations.

use vstd::prelude::*;

use crate::codepoints::{
    ascii_all_set, ascii_control_set, ascii_printable_set, excluded_seq, text_in_set,
};

verus! {

/// Every set contains the empty text: containment quantifies over the
/// text's characters, and the empty text has none.
pub proof fn lemma_empty_text_in_set(s: Set<u32>)
    ensures
        text_in_set(s, Seq::<char>::empty()),
{
}

/// A union is a superset of both of its operands.
pub proof fn lemma_union_is_superset(a: Set<u32>, b: Set<u32>)
    ensures
        a.subset_of(a.union(b)),
        b.subset_of(a.union(b)),
{
}

/// An intersection is a subset of both of its operands.
pub proof fn lemma_intersection_is_subset(a: Set<u32>, b: Set<u32>)
    ensures
        a.intersect(b).subset_of(a),
        a.intersect(b).subset_of(b),
{
}

/// What was taken away stays away: a difference meets its subtrahend in
/// the empty set.
pub proof fn lemma_difference_disjoint(a: Set<u32>, b: Set<u32>)
    ensures
        a.difference(b).intersect(b).is_empty(),
{
    assert(a.difference(b).intersect(b) =~= Set::<u32>::empty());
}

/// The symmetric difference equals the union less the intersection.
pub proof fn lemma_symmetric_difference_decomposition(a: Set<u32>, b: Set<u32>)
    ensures
        a.difference(b).union(b.difference(a)) == a.union(b).difference(a.intersect(b)),
{
    assert(a.difference(b).union(b.difference(a)) =~= a.union(b).difference(a.intersect(b)));
}

/// Union and intersection are idempotent: a set joined or met with itself
/// is itself.
pub proof fn lemma_union_intersection_idempotent(a: Set<u32>)
    ensures
        a.union(a) == a,
        a.intersect(a) == a,
{
    assert(a.union(a) =~= a);
    assert(a.intersect(a) =~= a);
}

/// The full ASCII set is exactly the union of the control and printable
/// sets.
pub proof fn lemma_ascii_all_decomposition()
    ensures
        ascii_all_set() == ascii_control_set().union(ascii_printable_set()),
{
    assert(ascii_all_set() =~= ascii_control_set().union(ascii_printable_set()));
}

/// The value `c` occurs in the text `t` for the first time at index `i`.
pub open spec fn occurs_at_first(t: Seq<char>, c: u32, i: int) -> bool {
    &&& 0 <= i < t.len()
    &&& t[i] as u32 == c
    &&& forall|j: int| 0 <= j < i ==> #[trigger] t[j] as u32 != c
}

/// The value `c` occurs somewhere in the text `t`; then it has a first
/// occurrence.
pub open spec fn has_first_occurrence(t: Seq<char>, c: u32) -> bool {
    exists|i: int| occurs_at_first(t, c, i)
}

/// A first occurrence is unique: two indices at which the same value first
/// occurs are the same index.
pub proof fn lemma_first_occurrence_unique(t: Seq<char>, c: u32, i: int, j: int)
    requires
        occurs_at_first(t, c, i),
        occurs_at_first(t, c, j),
    ensures
        i == j,
{
    if i < j {
        assert(t[i] as u32 != c);
    }
    if j < i {
        assert(t[j] as u32 != c);
    }
}

/// The exclusion list holds no duplicate values, holds exactly the excluded
/// values of the text, and keeps them in first-occurrence order: an earlier
/// entry was first seen at an earlier index.
pub proof fn lemma_excluded_seq_shape(s: Set<u32>, t: Seq<char>)
    ensures
        excluded_seq(s, t).no_duplicates(),
        forall|k: int|
            0 <= k < excluded_seq(s, t).len() ==> !s.contains(#[trigger] excluded_seq(s, t)[k]),
        forall|i: int|
            0 <= i < t.len() && !s.contains(t[i] as u32) ==> excluded_seq(s, t).contains(
                #[trigger] t[i] as u32,
            ),
        forall|k: int|
            0 <= k < excluded_seq(s, t).len() ==> has_first_occurrence(
                t,
                #[trigger] excluded_seq(s, t)[k],
            ),
        forall|k1: int, k2: int, i1: int, i2: int|
            0 <= k1 < k2 < excluded_seq(s, t).len() && occurs_at_first(
                t,
                excluded_seq(s, t)[k1],
                i1,
            ) && occurs_at_first(t, excluded_seq(s, t)[k2], i2) ==> i1 < i2,
    decreases t.len(),
{
    let e = excluded_seq(s, t);
    if t.len() == 0 {
        assert(e.no_duplicates());
        assert forall|i: int|
            0 <= i < t.len() && !s.contains(t[i] as u32) implies e.contains(
            #[trigger] t[i] as u32,
        ) by {}
    } else {
        let t0 = t.drop_last();
        let prev = excluded_seq(s, t0);
        let c = t.last() as u32;
        lemma_excluded_seq_shape(s, t0);
        // A first occurrence within the shorter text is one within the
        // longer, and the other way round for values occurring early.
        assert forall|x: u32, i: int| occurs_at_first(t0, x, i) implies occurs_at_first(
            t,
            x,
            i,
        ) by {
            assert(t[i] == t0[i]);
            assert forall|j: int| 0 <= j < i implies #[trigger] t[j] as u32 != x by {
                assert(t0[j] as u32 != x);
            }
        }
        // Each entry of prev occurs for the first time strictly before the
        // final character.
        assert forall|k: int| 0 <= k < prev.len() implies exists|i: int|
            i < t.len() - 1 && occurs_at_first(t, #[trigger] prev[k], i) by {
            let i = choose|i: int| occurs_at_first(t0, prev[k], i);
            assert(occurs_at_first(t, prev[k], i));
        }
        if !s.contains(c) && !prev.contains(c) {
            assert(e == prev.push(c));
            // The pushed value never occurs before the final character: an
            // earlier occurrence would already stand in prev.
            assert forall|j: int| 0 <= j < t.len() - 1 implies #[trigger] t[j] as u32 != c by {
                if t[j] as u32 == c {
                    assert(t0[j] as u32 == c);
                    assert(prev.contains(t0[j] as u32));
                }
            }
            assert(occurs_at_first(t, c, t.len() - 1));
            assert(e.no_duplicates()) by {
                assert forall|k1: int, k2: int|
                    0 <= k1 < k2 < e.len() implies e[k1] != e[k2] by {
                    if k2 < e.len() - 1 {
                        assert(prev[k1] != prev[k2]);
                    } else {
                        if e[k1] == c {
                            assert(prev.contains(prev[k1]));
                        }
                    }
                }
            }
            assert forall|i: int|
                0 <= i < t.len() && !s.contains(t[i] as u32) implies e.contains(
                #[trigger] t[i] as u32,
            ) by {
                if i < t.len() - 1 {
                    assert(t0[i] as u32 == t[i] as u32);
                    assert(prev.contains(t[i] as u32));
                    let k = choose|k: int| 0 <= k < prev.len() && prev[k] == t[i] as u32;
                    assert(e[k] == t[i] as u32);
                } else {
                    assert(e[e.len() - 1] == t[i] as u32);
                }
            }
            assert forall|k: int| 0 <= k < excluded_seq(s, t).len() implies has_first_occurrence(
                t,
                #[trigger] excluded_seq(s, t)[k],
            ) by {
                if k < excluded_seq(s, t).len() - 1 {
                    assert(excluded_seq(s, t)[k] == prev[k]);
                    let i = choose|i: int| i < t.len() - 1 && occurs_at_first(t, prev[k], i);
                    assert(occurs_at_first(t, excluded_seq(s, t)[k], i));
                } else {
                    assert(excluded_seq(s, t)[k] == c);
                    assert(occurs_at_first(t, excluded_seq(s, t)[k], t.len() - 1));
                }
            }
            assert forall|k1: int, k2: int, i1: int, i2: int|
                0 <= k1 < k2 < e.len() && occurs_at_first(t, e[k1], i1) && occurs_at_first(
                    t,
                    e[k2],
                    i2,
                ) implies i1 < i2 by {
                if k2 < e.len() - 1 {
                    let j1 = choose|j: int| j < t.len() - 1 && occurs_at_first(t, prev[k1], j);
                    let j2 = choose|j: int| j < t.len() - 1 && occurs_at_first(t, prev[k2], j);
                    assert(occurs_at_first(t0, prev[k1], j1)) by {
                        assert(t0[j1] == t[j1]);
                        assert forall|l: int| 0 <= l < j1 implies #[trigger] t0[l] as u32
                            != prev[k1] by {
                            assert(t[l] as u32 != prev[k1]);
                        }
                    }
                    assert(occurs_at_first(t0, prev[k2], j2)) by {
                        assert(t0[j2] == t[j2]);
                        assert forall|l: int| 0 <= l < j2 implies #[trigger] t0[l] as u32
                            != prev[k2] by {
                            assert(t[l] as u32 != prev[k2]);
                        }
                    }
                    assert(j1 < j2);
                    lemma_first_occurrence_unique(t, e[k1], i1, j1);
                    lemma_first_occurrence_unique(t, e[k2], i2, j2);
                } else {
                    // The later entry is the freshly pushed value, first
                    // seen at the final index; the earlier entry was seen
                    // before it.
                    assert(e[k2] == c);
                    lemma_first_occurrence_unique(t, c, i2, t.len() - 1);
                    let j1 = choose|j: int| j < t.len() - 1 && occurs_at_first(t, prev[k1], j);
                    lemma_first_occurrence_unique(t, e[k1], i1, j1);
                }
            }
        } else {
            assert(e == prev);
            assert forall|i: int|
                0 <= i < t.len() && !s.contains(t[i] as u32) implies e.contains(
                #[trigger] t[i] as u32,
            ) by {
                if i < t.len() - 1 {
                    assert(t0[i] as u32 == t[i] as u32);
                    assert(prev.contains(t[i] as u32));
                } else {
                    assert(prev.contains(c));
                }
            }
            assert forall|k: int| 0 <= k < excluded_seq(s, t).len() implies has_first_occurrence(
                t,
                #[trigger] excluded_seq(s, t)[k],
            ) by {
                assert(excluded_seq(s, t)[k] == prev[k]);
                let i = choose|i: int| i < t.len() - 1 && occurs_at_first(t, prev[k], i);
                assert(occurs_at_first(t, excluded_seq(s, t)[k], i));
            }
            assert forall|k1: int, k2: int, i1: int, i2: int|
                0 <= k1 < k2 < e.len() && occurs_at_first(t, e[k1], i1) && occurs_at_first(
                    t,
                    e[k2],
                    i2,
                ) implies i1 < i2 by {
                let j1 = choose|j: int| j < t.len() - 1 && occurs_at_first(t, prev[k1], j);
                let j2 = choose|j: int| j < t.len() - 1 && occurs_at_first(t, prev[k2], j);
                assert(occurs_at_first(t0, prev[k1], j1)) by {
                    assert(t0[j1] == t[j1]);
                    assert forall|l: int| 0 <= l < j1 implies #[trigger] t0[l] as u32
                        != prev[k1] by {
                        assert(t[l] as u32 != prev[k1]);
                    }
                }
                assert(occurs_at_first(t0, prev[k2], j2)) by {
                    assert(t0[j2] == t[j2]);
                    assert forall|l: int| 0 <= l < j2 implies #[trigger] t0[l] as u32
                        != prev[k2] by {
                        assert(t[l] as u32 != prev[k2]);
                    }
                }
                assert(j1 < j2);
                lemma_first_occurrence_unique(t, e[k1], i1, j1);
                lemma_first_occurrence_unique(t, e[k2], i2, j2);
            }
        }
    }
}

} // verus!
