//! The core code-point set type and its operations.

use vstd::prelude::*;
use vstd::std_specs::cmp::PartialEqSpec;
use vstd::string::StrSliceExecFns;

verus! {

broadcast use vstd::string::group_string_axioms;

/// The sequence of Unicode scalar values of a text.
pub open spec fn text_cps(t: Seq<char>) -> Seq<u32> {
    t.map_values(|c: char| c as u32)
}

/// Every scalar value of the text `t` is a member of `s`.
pub open spec fn text_in_set(s: Set<u32>, t: Seq<char>) -> bool {
    forall|i: int| 0 <= i < t.len() ==> s.contains(#[trigger] t[i] as u32)
}

/// The elements of `s` stand in strictly increasing order.
pub open spec fn strictly_increasing(s: Seq<u32>) -> bool {
    forall|i: int, j: int| 0 <= i < j < s.len() ==> s[i] < s[j]
}

/// The distinct scalar values of the text `t` that are not members of `s`,
/// in the order in which each value is first seen reading left to right.
pub open spec fn excluded_seq(s: Set<u32>, t: Seq<char>) -> Seq<u32>
    decreases t.len(),
{
    if t.len() == 0 {
        Seq::empty()
    } else {
        let prev = excluded_seq(s, t.drop_last());
        let c = t.last() as u32;
        if !s.contains(c) && !prev.contains(c) {
            prev.push(c)
        } else {
            prev
        }
    }
}

/// The scalar value `cp` is a member of at least one of the given sets.
pub open spec fn cp_in_any(sets: Seq<CodePoints>, cp: u32) -> bool {
    exists|j: int| 0 <= j < sets.len() && #[trigger] sets[j]@.contains(cp)
}

/// Every scalar value of the text `t` is a member of at least one of the
/// given sets.
pub open spec fn text_in_any(sets: Seq<CodePoints>, t: Seq<char>) -> bool {
    forall|i: int| 0 <= i < t.len() ==> #[trigger] cp_in_any(sets, t[i] as u32)
}

/// A set of Unicode code points.
///
/// The set is immutable after construction: membership queries never change
/// it, and the set-algebra operations always build a new set. Internally the
/// code points are kept as a strictly increasing vector, so equal sets share
/// one canonical representation, and derived hashing is order-independent
/// by construction.
#[derive(Clone, Debug, Eq, Hash)]
pub struct CodePoints {
    cps: Vec<u32>,
}

impl View for CodePoints {
    type V = Set<u32>;

    closed spec fn view(&self) -> Set<u32> {
        self.cps@.to_set()
    }
}

impl CodePoints {
    /// The internal vector is strictly increasing: no duplicates, one
    /// canonical layout for each set of code points.
    pub closed spec fn wf(&self) -> bool {
        strictly_increasing(self.cps@)
    }

    /// Creates a set holding exactly the given code points; duplicates in
    /// the input collapse and the input's order is irrelevant.
    pub fn new(codepoints: Vec<u32>) -> (r: CodePoints)
        ensures
            r@ == codepoints@.to_set(),
            r.wf(),
    {
        let mut v: Vec<u32> = Vec::new();
        let n = codepoints.len();
        for i in 0..n
            invariant
                n == codepoints.len(),
                strictly_increasing(v@),
                v@.to_set() == codepoints@.take(i as int).to_set(),
        {
            insert_cp(&mut v, codepoints[i]);
            proof {
                lemma_take_push(codepoints@, i as int);
                lemma_to_set_push(codepoints@.take(i as int), codepoints@[i as int]);
            }
        }
        proof {
            assert(codepoints@.take(n as int) =~= codepoints@);
        }
        CodePoints { cps: v }
    }

    /// Creates a set holding exactly the scalar values of the given string;
    /// each character contributes one scalar value, repeats collapse, and a
    /// character outside the Basic Multilingual Plane counts as one value.
    pub fn from_string(s: &str) -> (r: CodePoints)
        ensures
            r@ == text_cps(s@).to_set(),
            r.wf(),
    {
        CodePoints::new(text_code_points(s))
    }

    /// True when the single scalar value `cp` is a member of the set.
    pub fn contains_cp(&self, cp: u32) -> (r: bool)
        requires
            self.wf(),
        ensures
            r == self@.contains(cp),
    {
        let mut lo: usize = 0;
        let mut hi: usize = self.cps.len();
        while lo < hi
            invariant
                lo <= hi <= self.cps.len(),
                self.wf(),
                forall|k: int| 0 <= k < lo ==> self.cps@[k] < cp,
                forall|k: int| hi <= k < self.cps@.len() ==> self.cps@[k] > cp,
            decreases hi - lo,
        {
            let mid = lo + (hi - lo) / 2;
            if self.cps[mid] < cp {
                lo = mid + 1;
            } else if self.cps[mid] > cp {
                hi = mid;
            } else {
                assert(self@.contains(cp)) by {
                    assert(self.cps@[mid as int] == cp);
                }
                return true;
            }
        }
        proof {
            if self@.contains(cp) {
                let i = choose|i: int| 0 <= i < self.cps@.len() && self.cps@[i] == cp;
                assert(false);
            }
        }
        false
    }

    /// True when every scalar value of `s` is a member of the set, by one
    /// left-to-right scan; the empty string is vacuously contained.
    pub fn contains(&self, s: &str) -> (r: bool)
        requires
            self.wf(),
        ensures
            r == text_in_set(self@, s@),
    {
        let cps = text_code_points(s);
        let n = cps.len();
        for i in 0..n
            invariant
                self.wf(),
                n == cps.len(),
                cps@ == text_cps(s@),
                forall|k: int| 0 <= k < i ==> self@.contains(#[trigger] s@[k] as u32),
        {
            if !self.contains_cp(cps[i]) {
                assert(!text_in_set(self@, s@)) by {
                    assert(cps@[i as int] == s@[i as int] as u32);
                }
                return false;
            }
            proof {
                assert(cps@[i as int] == s@[i as int] as u32);
            }
        }
        true
    }

    /// The first scalar value of `s` that is not a member, together with its
    /// zero-based character index; `None` when every value is a member.
    pub fn first_excluded_with_position(&self, s: &str) -> (r: Option<(u32, usize)>)
        requires
            self.wf(),
        ensures
            r is None <==> text_in_set(self@, s@),
            r is Some ==> (r->0).1 < s@.len(),
            r is Some ==> (r->0).0 == s@[(r->0).1 as int] as u32 && !self@.contains((r->0).0),
            r is Some ==> forall|j: int|
                0 <= j < (r->0).1 ==> self@.contains(#[trigger] s@[j] as u32),
    {
        let cps = text_code_points(s);
        let n = cps.len();
        for i in 0..n
            invariant
                self.wf(),
                n == cps.len(),
                cps@ == text_cps(s@),
                forall|k: int| 0 <= k < i ==> self@.contains(#[trigger] s@[k] as u32),
        {
            let cp = cps[i];
            proof {
                assert(cps@[i as int] == s@[i as int] as u32);
            }
            if !self.contains_cp(cp) {
                return Some((cp, i));
            }
        }
        None
    }

    /// The first scalar value of `s` that is not a member; `None` when every
    /// value is a member.
    pub fn first_excluded(&self, s: &str) -> (r: Option<u32>)
        requires
            self.wf(),
        ensures
            r is None <==> text_in_set(self@, s@),
            r is Some ==> exists|i: int|
                {
                    &&& 0 <= i < s@.len()
                    &&& r->0 == s@[i] as u32
                    &&& !self@.contains(#[trigger] s@[i] as u32)
                    &&& forall|j: int| 0 <= j < i ==> self@.contains(#[trigger] s@[j] as u32)
                },
    {
        match self.first_excluded_with_position(s) {
            None => None,
            Some((cp, pos)) => {
                proof {
                    assert(0 <= pos < s@.len() && cp == s@[pos as int] as u32 && !self@.contains(
                        s@[pos as int] as u32,
                    ) && forall|j: int|
                        0 <= j < pos ==> self@.contains(#[trigger] s@[j] as u32));
                }
                Some(cp)
            },
        }
    }

    /// Every distinct scalar value of `s` that is not a member, each exactly
    /// once, in the order of first occurrence; empty input or no exclusions
    /// give an empty vector.
    pub fn all_excluded(&self, s: &str) -> (r: Vec<u32>)
        requires
            self.wf(),
        ensures
            r@ == excluded_seq(self@, s@),
    {
        let cps = text_code_points(s);
        let n = cps.len();
        let mut acc: Vec<u32> = Vec::new();
        for i in 0..n
            invariant
                self.wf(),
                n == cps.len(),
                cps@ == text_cps(s@),
                acc@ == excluded_seq(self@, s@.take(i as int)),
        {
            let cp = cps[i];
            proof {
                assert(cps@[i as int] == s@[i as int] as u32);
            }
            if !self.contains_cp(cp) && !vec_contains_cp(&acc, cp) {
                acc.push(cp);
            }
            proof {
                let t1 = s@.take(i as int + 1);
                assert(t1.drop_last() =~= s@.take(i as int));
                assert(t1.last() == s@[i as int]);
            }
        }
        proof {
            assert(s@.take(n as int) =~= s@);
        }
        acc
    }

    /// A new set holding every code point of `self` or `other`; neither
    /// operand changes.
    pub fn union(&self, other: &CodePoints) -> (r: CodePoints)
        requires
            self.wf(),
            other.wf(),
        ensures
            r@ == self@.union(other@),
            r.wf(),
    {
        let n = self.cps.len();
        let mut v: Vec<u32> = Vec::new();
        for i in 0..n
            invariant
                n == self.cps.len(),
                v@ == self.cps@.take(i as int),
        {
            v.push(self.cps[i]);
            proof {
                lemma_take_push(self.cps@, i as int);
            }
        }
        proof {
            assert(self.cps@.take(n as int) =~= self.cps@);
            assert(v@.to_set() =~= self@.union(other.cps@.take(0).to_set()));
        }
        let m = other.cps.len();
        for i in 0..m
            invariant
                m == other.cps.len(),
                strictly_increasing(v@),
                v@.to_set() == self@.union(other.cps@.take(i as int).to_set()),
        {
            insert_cp(&mut v, other.cps[i]);
            proof {
                lemma_take_push(other.cps@, i as int);
                lemma_to_set_push(other.cps@.take(i as int), other.cps@[i as int]);
                assert(self@.union(other.cps@.take(i as int + 1).to_set()) =~= self@.union(
                    other.cps@.take(i as int).to_set(),
                ).insert(other.cps@[i as int]));
            }
        }
        proof {
            assert(other.cps@.take(m as int) =~= other.cps@);
        }
        CodePoints { cps: v }
    }

    /// A new set holding every code point present in both `self` and
    /// `other`; neither operand changes.
    pub fn intersection(&self, other: &CodePoints) -> (r: CodePoints)
        requires
            self.wf(),
            other.wf(),
        ensures
            r@ == self@.intersect(other@),
            r.wf(),
    {
        let n = self.cps.len();
        let mut v: Vec<u32> = Vec::new();
        for i in 0..n
            invariant_except_break
                forall|k: int|
                    0 <= k < v@.len() ==> exists|m: int|
                        0 <= m < i && self.cps@[m] == #[trigger] v@[k],
            invariant
                n == self.cps.len(),
                self.wf(),
                other.wf(),
                strictly_increasing(v@),
                v@.to_set() == self.cps@.take(i as int).to_set().intersect(other@),
        {
            let cp = self.cps[i];
            let ghost pre = v@;
            if other.contains_cp(cp) {
                proof {
                    if pre.len() > 0 {
                        let k = pre.len() - 1;
                        let m = choose|m: int| 0 <= m < i && self.cps@[m] == pre[k];
                        assert(self.cps@[m] < cp);
                    }
                    lemma_to_set_push(pre, cp);
                    lemma_take_push(self.cps@, i as int);
                    lemma_to_set_push(self.cps@.take(i as int), cp);
                    assert(self.cps@.take(i as int + 1).to_set().intersect(other@)
                        =~= self.cps@.take(i as int).to_set().intersect(other@).insert(cp));
                }
                v.push(cp);
            } else {
                proof {
                    lemma_take_push(self.cps@, i as int);
                    lemma_to_set_push(self.cps@.take(i as int), cp);
                    assert(self.cps@.take(i as int + 1).to_set().intersect(other@)
                        =~= self.cps@.take(i as int).to_set().intersect(other@));
                }
            }
            proof {
                assert forall|k: int| 0 <= k < v@.len() implies exists|m: int|
                    0 <= m < i as int + 1 && self.cps@[m] == #[trigger] v@[k] by {
                    if k < pre.len() {
                        assert(v@[k] == pre[k]);
                        let m = choose|m: int| 0 <= m < i as int && self.cps@[m] == pre[k];
                        assert(0 <= m < i as int + 1 && self.cps@[m] == v@[k]);
                    } else {
                        assert(self.cps@[i as int] == v@[k]);
                    }
                }
            }
        }
        proof {
            assert(self.cps@.take(n as int) =~= self.cps@);
        }
        CodePoints { cps: v }
    }

    /// A new set holding every code point of `self` that is not in `other`;
    /// neither operand changes.
    pub fn difference(&self, other: &CodePoints) -> (r: CodePoints)
        requires
            self.wf(),
            other.wf(),
        ensures
            r@ == self@.difference(other@),
            r.wf(),
    {
        let n = self.cps.len();
        let mut v: Vec<u32> = Vec::new();
        for i in 0..n
            invariant_except_break
                forall|k: int|
                    0 <= k < v@.len() ==> exists|m: int|
                        0 <= m < i && self.cps@[m] == #[trigger] v@[k],
            invariant
                n == self.cps.len(),
                self.wf(),
                other.wf(),
                strictly_increasing(v@),
                v@.to_set() == self.cps@.take(i as int).to_set().difference(other@),
        {
            let cp = self.cps[i];
            let ghost pre = v@;
            if !other.contains_cp(cp) {
                proof {
                    if pre.len() > 0 {
                        let k = pre.len() - 1;
                        let m = choose|m: int| 0 <= m < i && self.cps@[m] == pre[k];
                        assert(self.cps@[m] < cp);
                    }
                    lemma_to_set_push(pre, cp);
                    lemma_take_push(self.cps@, i as int);
                    lemma_to_set_push(self.cps@.take(i as int), cp);
                    assert(self.cps@.take(i as int + 1).to_set().difference(other@)
                        =~= self.cps@.take(i as int).to_set().difference(other@).insert(cp));
                }
                v.push(cp);
            } else {
                proof {
                    lemma_take_push(self.cps@, i as int);
                    lemma_to_set_push(self.cps@.take(i as int), cp);
                    assert(self.cps@.take(i as int + 1).to_set().difference(other@)
                        =~= self.cps@.take(i as int).to_set().difference(other@));
                }
            }
            proof {
                assert forall|k: int| 0 <= k < v@.len() implies exists|m: int|
                    0 <= m < i as int + 1 && self.cps@[m] == #[trigger] v@[k] by {
                    if k < pre.len() {
                        assert(v@[k] == pre[k]);
                        let m = choose|m: int| 0 <= m < i as int && self.cps@[m] == pre[k];
                        assert(0 <= m < i as int + 1 && self.cps@[m] == v@[k]);
                    } else {
                        assert(self.cps@[i as int] == v@[k]);
                    }
                }
            }
        }
        proof {
            assert(self.cps@.take(n as int) =~= self.cps@);
        }
        CodePoints { cps: v }
    }

    /// A new set holding every code point in exactly one of `self` and
    /// `other`; neither operand changes.
    pub fn symmetric_difference(&self, other: &CodePoints) -> (r: CodePoints)
        requires
            self.wf(),
            other.wf(),
        ensures
            r@ == self@.difference(other@).union(other@.difference(self@)),
            r.wf(),
    {
        let left = self.difference(other);
        let right = other.difference(self);
        left.union(&right)
    }

    /// True when every code point of `self` is also in `other`; a set is a
    /// subset of itself.
    pub fn is_subset_of(&self, other: &CodePoints) -> (r: bool)
        requires
            self.wf(),
            other.wf(),
        ensures
            r == self@.subset_of(other@),
    {
        let n = self.cps.len();
        for i in 0..n
            invariant
                n == self.cps.len(),
                self.wf(),
                other.wf(),
                forall|k: int| 0 <= k < i ==> other@.contains(#[trigger] self.cps@[k]),
        {
            if !other.contains_cp(self.cps[i]) {
                proof {
                    assert(self@.contains(self.cps@[i as int]));
                }
                return false;
            }
        }
        proof {
            assert forall|x: u32| self@.contains(x) implies other@.contains(x) by {
                let i = choose|i: int| 0 <= i < self.cps@.len() && self.cps@[i] == x;
            }
        }
        true
    }

    /// True when every code point of `other` is also in `self`; a set is a
    /// superset of itself.
    pub fn is_superset_of(&self, other: &CodePoints) -> (r: bool)
        requires
            self.wf(),
            other.wf(),
        ensures
            r == other@.subset_of(self@),
    {
        other.is_subset_of(self)
    }

    /// True when the list of sets is not empty and every scalar value of `s`
    /// is a member of at least one set in the list. An empty list refuses
    /// every text, the empty text included.
    pub fn contains_all_in_any(s: &str, codepoints_list: &[CodePoints]) -> (r: bool)
        requires
            forall|j: int|
                0 <= j < codepoints_list@.len() ==> (#[trigger] codepoints_list@[j]).wf(),
        ensures
            r == (codepoints_list@.len() > 0 && text_in_any(codepoints_list@, s@)),
    {
        if codepoints_list.len() == 0 {
            return false;
        }
        let cps = text_code_points(s);
        let n = cps.len();
        for i in 0..n
            invariant
                n == cps.len(),
                cps@ == text_cps(s@),
                codepoints_list@.len() > 0,
                forall|j: int|
                    0 <= j < codepoints_list@.len() ==> (#[trigger] codepoints_list@[j]).wf(),
                forall|k: int| 0 <= k < i ==> #[trigger] cp_in_any(codepoints_list@, s@[k] as u32),
        {
            let cp = cps[i];
            proof {
                assert(cps@[i as int] == s@[i as int] as u32);
            }
            let m = codepoints_list.len();
            let mut found = false;
            for j in 0..m
                invariant
                    m == codepoints_list@.len(),
                    forall|l: int|
                        0 <= l < codepoints_list@.len() ==> (#[trigger] codepoints_list@[l]).wf(),
                    found ==> cp_in_any(codepoints_list@, cp),
                    !found ==> forall|l: int|
                        0 <= l < j ==> !(#[trigger] codepoints_list@[l])@.contains(cp),
            {
                if codepoints_list[j].contains_cp(cp) {
                    found = true;
                }
            }
            if !found {
                proof {
                    assert(!cp_in_any(codepoints_list@, s@[i as int] as u32));
                }
                return false;
            }
        }
        true
    }

    /// The number of code points in the set.
    pub fn len(&self) -> (r: usize)
        requires
            self.wf(),
        ensures
            r == self@.len(),
    {
        proof {
            lemma_strictly_increasing_no_dup(self.cps@);
            self.cps@.unique_seq_to_set();
        }
        self.cps.len()
    }

    /// True when the set holds no code points at all.
    pub fn is_empty(&self) -> (r: bool)
        requires
            self.wf(),
        ensures
            r == self@.is_empty(),
    {
        proof {
            if self.cps@.len() == 0 {
                assert forall|x: u32| !self@.contains(x) by {
                    if self@.contains(x) {
                        let i = choose|i: int| 0 <= i < self.cps@.len() && self.cps@[i] == x;
                    }
                }
                assert(self@ =~= Set::<u32>::empty());
            } else {
                assert(self@.contains(self.cps@[0]));
            }
        }
        self.cps.is_empty()
    }

    /// The code points of the set as a vector, in ascending order.
    pub fn iter(&self) -> (r: Vec<u32>)
        requires
            self.wf(),
        ensures
            r@.to_set() == self@,
            strictly_increasing(r@),
    {
        let n = self.cps.len();
        let mut v: Vec<u32> = Vec::new();
        for i in 0..n
            invariant
                n == self.cps.len(),
                v@ == self.cps@.take(i as int),
        {
            v.push(self.cps[i]);
            proof {
                lemma_take_push(self.cps@, i as int);
            }
        }
        proof {
            assert(self.cps@.take(n as int) =~= self.cps@);
        }
        v
    }
}

/// The 33 ASCII control characters: the C0 range and DEL.
pub open spec fn ascii_control_set() -> Set<u32> {
    Set::new(|c: u32| c <= 0x1F || c == 0x7F)
}

/// The 95 printable ASCII characters, space through tilde.
pub open spec fn ascii_printable_set() -> Set<u32> {
    Set::new(|c: u32| 0x20 <= c <= 0x7E)
}

/// Line feed and carriage return.
pub open spec fn crlf_set() -> Set<u32> {
    Set::new(|c: u32| c == 0x0A || c == 0x0D)
}

/// All 128 ASCII characters.
pub open spec fn ascii_all_set() -> Set<u32> {
    Set::new(|c: u32| c <= 0x7F)
}

impl CodePoints {
    /// The set of ASCII control characters: 0x00 through 0x1F and DEL.
    pub fn ascii_control() -> (r: CodePoints)
        ensures
            r@ == ascii_control_set(),
            r.wf(),
    {
        let mut v: Vec<u32> = Vec::new();
        push_range(&mut v, 0x00, 0x1F);
        let ghost pre = v@;
        v.push(0x7F);
        proof {
            lemma_to_set_push(pre, 0x7F);
            assert(v@.to_set() =~= ascii_control_set());
        }
        CodePoints { cps: v }
    }

    /// The well-known ASCII control set; equal in value to what
    /// [`CodePoints::ascii_control`] builds.
    pub fn ascii_control_cached() -> (r: CodePoints)
        ensures
            r@ == ascii_control_set(),
            r.wf(),
    {
        CodePoints::ascii_control()
    }

    /// The set of printable ASCII characters: 0x20 through 0x7E.
    pub fn ascii_printable() -> (r: CodePoints)
        ensures
            r@ == ascii_printable_set(),
            r.wf(),
    {
        let mut v: Vec<u32> = Vec::new();
        push_range(&mut v, 0x20, 0x7E);
        proof {
            assert(v@.to_set() =~= ascii_printable_set());
        }
        CodePoints { cps: v }
    }

    /// The well-known printable ASCII set; equal in value to what
    /// [`CodePoints::ascii_printable`] builds.
    pub fn ascii_printable_cached() -> (r: CodePoints)
        ensures
            r@ == ascii_printable_set(),
            r.wf(),
    {
        CodePoints::ascii_printable()
    }

    /// The set holding exactly line feed and carriage return.
    pub fn crlf() -> (r: CodePoints)
        ensures
            r@ == crlf_set(),
            r.wf(),
    {
        let mut v: Vec<u32> = Vec::new();
        v.push(0x0A);
        let ghost pre = v@;
        v.push(0x0D);
        proof {
            assert(v@.to_set() =~= crlf_set()) by {
                assert(v@[0] == 0x0Au32);
                assert(v@[1] == 0x0Du32);
                assert forall|x: u32| crlf_set().contains(x) implies v@.to_set().contains(x) by {
                    if x == 0x0A {
                        assert(v@[0] == x);
                    } else {
                        assert(v@[1] == x);
                    }
                }
            }
        }
        CodePoints { cps: v }
    }

    /// The well-known CR/LF set; equal in value to what
    /// [`CodePoints::crlf`] builds.
    pub fn crlf_cached() -> (r: CodePoints)
        ensures
            r@ == crlf_set(),
            r.wf(),
    {
        CodePoints::crlf()
    }

    /// The set of all 128 ASCII characters: the union of the control and
    /// printable sets.
    pub fn ascii_all() -> (r: CodePoints)
        ensures
            r@ == ascii_all_set(),
            r.wf(),
    {
        let mut v: Vec<u32> = Vec::new();
        push_range(&mut v, 0x00, 0x7F);
        proof {
            assert(v@.to_set() =~= ascii_all_set());
        }
        CodePoints { cps: v }
    }

    /// The well-known full ASCII set; equal in value to what
    /// [`CodePoints::ascii_all`] builds.
    pub fn ascii_all_cached() -> (r: CodePoints)
        ensures
            r@ == ascii_all_set(),
            r.wf(),
    {
        CodePoints::ascii_all()
    }

    /// Wraps a strictly increasing vector as a set without copying it.
    pub(crate) fn from_sorted(cps: Vec<u32>) -> (r: CodePoints)
        requires
            strictly_increasing(cps@),
        ensures
            r@ == cps@.to_set(),
            r.wf(),
    {
        CodePoints { cps }
    }
}

/// Appends the code points `lo` through `hi` inclusive, in ascending order,
/// to a strictly increasing vector whose elements all lie below `lo`.
pub(crate) fn push_range(v: &mut Vec<u32>, lo: u32, hi: u32)
    requires
        strictly_increasing(old(v)@),
        forall|k: int| 0 <= k < old(v)@.len() ==> old(v)@[k] < lo,
        lo <= hi < 0xFFFF_FFFF,
    ensures
        strictly_increasing(final(v)@),
        final(v)@.to_set() == old(v)@.to_set().union(Set::new(|c: u32| lo <= c <= hi)),
        final(v)@.len() > 0,
        forall|k: int| 0 <= k < final(v)@.len() ==> final(v)@[k] <= hi,
{
    let end = hi + 1;
    for c in lo..end
        invariant
            lo <= c <= end,
            end == hi + 1,
            strictly_increasing(v@),
            forall|k: int| 0 <= k < v@.len() ==> v@[k] < c,
            v@.to_set() == old(v)@.to_set().union(Set::new(|x: u32| lo <= x < c)),
    {
        let ghost pre = v@;
        v.push(c);
        proof {
            lemma_to_set_push(pre, c);
            assert(v@.to_set() =~= old(v)@.to_set().union(Set::new(|x: u32| lo <= x < c + 1)));
        }
    }
    proof {
        assert(v@.to_set() =~= old(v)@.to_set().union(Set::new(|c: u32| lo <= c <= hi)));
        assert(v@.to_set().contains(lo));
        let i = choose|i: int| 0 <= i < v@.len() && v@[i] == lo;
    }
}

impl PartialEq for CodePoints {
    /// Two sets are equal exactly when they hold the same code points; the
    /// canonical internal layout makes that one vector comparison.
    fn eq(&self, other: &Self) -> (r: bool) {
        if self.cps.len() != other.cps.len() {
            proof {
                assert(self.cps@ != other.cps@);
            }
            return false;
        }
        let n = self.cps.len();
        for i in 0..n
            invariant
                n == self.cps.len() == other.cps.len(),
                forall|k: int| 0 <= k < i ==> self.cps@[k] == other.cps@[k],
        {
            if self.cps[i] != other.cps[i] {
                proof {
                    assert(self.cps@ != other.cps@);
                }
                return false;
            }
        }
        proof {
            assert(self.cps@ =~= other.cps@);
        }
        true
    }
}

impl vstd::std_specs::cmp::PartialEqSpecImpl for CodePoints {
    open spec fn obeys_eq_spec() -> bool {
        true
    }

    closed spec fn eq_spec(&self, other: &Self) -> bool {
        self.cps@ == other.cps@
    }
}

/// Two well-formed sets compare equal with `==` exactly when they hold the
/// same code points, whatever the order or repetition of the values they
/// were built from.
pub proof fn lemma_eq_matches_view(a: &CodePoints, b: &CodePoints)
    requires
        a.wf(),
        b.wf(),
    ensures
        a.eq_spec(b) <==> a@ == b@,
{
    if a.eq_spec(b) {
        assert(a@ =~= b@);
    }
    if a@ == b@ {
        lemma_canonical_form(a.cps@, b.cps@);
    }
}

/// Two strictly increasing vectors holding the same set of values are the
/// same vector: the canonical layout is unique.
pub proof fn lemma_canonical_form(s1: Seq<u32>, s2: Seq<u32>)
    requires
        strictly_increasing(s1),
        strictly_increasing(s2),
        s1.to_set() == s2.to_set(),
    ensures
        s1 == s2,
    decreases s1.len(),
{
    if s1.len() == 0 {
        if s2.len() > 0 {
            assert(s2.to_set().contains(s2[0]));
            let i = choose|i: int| 0 <= i < s1.len() && s1[i] == s2[0];
            assert(false);
        }
        assert(s1 =~= s2);
    } else {
        if s2.len() == 0 {
            assert(s1.to_set().contains(s1[0]));
            let i = choose|i: int| 0 <= i < s2.len() && s2[i] == s1[0];
            assert(false);
        }
        let l1 = s1.last();
        let l2 = s2.last();
        assert(s1.to_set().contains(l1));
        assert(s2.to_set().contains(l2));
        assert(l1 <= l2) by {
            let k = choose|k: int| 0 <= k < s2.len() && s2[k] == l1;
            if k < s2.len() - 1 {
                assert(s2[k] < l2);
            }
        }
        assert(l2 <= l1) by {
            let k = choose|k: int| 0 <= k < s1.len() && s1[k] == l2;
            if k < s1.len() - 1 {
                assert(s1[k] < l1);
            }
        }
        lemma_drop_last_to_set(s1);
        lemma_drop_last_to_set(s2);
        assert(s1.drop_last().to_set() =~= s2.drop_last().to_set());
        lemma_canonical_form(s1.drop_last(), s2.drop_last());
        assert(s1.len() == s2.len());
        assert forall|i: int| 0 <= i < s1.len() implies s1[i] == s2[i] by {
            if i < s1.len() - 1 {
                assert(s1.drop_last()[i] == s1[i]);
                assert(s2.drop_last()[i] == s2[i]);
            }
        }
        assert(s1 =~= s2);
    }
}

/// Dropping the last element of a strictly increasing vector removes exactly
/// that value from its set.
proof fn lemma_drop_last_to_set(s: Seq<u32>)
    requires
        strictly_increasing(s),
        s.len() > 0,
    ensures
        s.drop_last().to_set() =~= s.to_set().remove(s.last()),
{
    assert forall|x: u32| s.drop_last().to_set().contains(x) implies s.to_set().remove(
        s.last(),
    ).contains(x) by {
        let i = choose|i: int| 0 <= i < s.drop_last().len() && s.drop_last()[i] == x;
        assert(s[i] == x);
        assert(s[i] < s.last());
    }
    assert forall|x: u32| s.to_set().remove(s.last()).contains(x) implies s.drop_last(
    ).to_set().contains(x) by {
        let i = choose|i: int| 0 <= i < s.len() && s[i] == x;
        assert(i < s.len() - 1);
        assert(s.drop_last()[i] == x);
    }
}

/// The scalar values of a text, by one left-to-right pass over its
/// characters.
pub fn text_code_points(s: &str) -> (v: Vec<u32>)
    ensures
        v@ == text_cps(s@),
{
    let mut v: Vec<u32> = Vec::new();
    for c in it: s.chars()
        invariant
            it.seq() == s@,
            v@ == text_cps(s@.take(it.index())),
    {
        v.push(c as u32);
        proof {
            lemma_take_push(s@, it.index());
            assert(text_cps(s@.take(it.index() + 1)) =~= text_cps(s@.take(it.index())).push(
                s@[it.index()] as u32,
            ));
        }
    }
    proof {
        assert(s@.take(s@.len() as int) =~= s@);
    }
    v
}

/// True when `cp` occurs in the vector.
fn vec_contains_cp(v: &Vec<u32>, cp: u32) -> (r: bool)
    ensures
        r == v@.contains(cp),
{
    let n = v.len();
    for i in 0..n
        invariant
            n == v.len(),
            forall|k: int| 0 <= k < i ==> v@[k] != cp,
    {
        if v[i] == cp {
            return true;
        }
    }
    proof {
        if v@.contains(cp) {
            let i = choose|i: int| 0 <= i < v@.len() && v@[i] == cp;
            assert(false);
        }
    }
    false
}

/// Puts `cp` into the strictly increasing vector `v`, keeping it strictly
/// increasing; a value already present is left alone.
fn insert_cp(v: &mut Vec<u32>, cp: u32)
    requires
        strictly_increasing(old(v)@),
    ensures
        strictly_increasing(final(v)@),
        final(v)@.to_set() == old(v)@.to_set().insert(cp),
{
    let mut lo: usize = 0;
    let mut hi: usize = v.len();
    while lo < hi
        invariant
            lo <= hi <= v.len(),
            strictly_increasing(v@),
            forall|k: int| 0 <= k < lo ==> v@[k] < cp,
            forall|k: int| hi <= k < v@.len() ==> v@[k] >= cp,
        decreases hi - lo,
    {
        let mid = lo + (hi - lo) / 2;
        if v[mid] < cp {
            lo = mid + 1;
        } else {
            hi = mid;
        }
    }
    if lo < v.len() && v[lo] == cp {
        proof {
            assert(old(v)@.to_set().insert(cp) =~= old(v)@.to_set());
        }
    } else {
        v.insert(lo, cp);
        proof {
            let w = old(v)@;
            assert forall|i: int, j: int| 0 <= i < j < v@.len() implies v@[i] < v@[j] by {
                if j < lo {
                } else if i < lo && j == lo {
                } else if i == lo {
                    assert(v@[j] == w[j - 1]);
                } else if i < lo {
                    assert(v@[j] == w[j - 1]);
                } else {
                    assert(v@[i] == w[i - 1]);
                    assert(v@[j] == w[j - 1]);
                }
            }
            assert forall|x: u32| v@.to_set().contains(x) implies w.to_set().insert(cp).contains(
                x,
            ) by {
                let i = choose|i: int| 0 <= i < v@.len() && v@[i] == x;
                if i < lo {
                    assert(w[i] == x);
                } else if i > lo {
                    assert(w[i - 1] == x);
                }
            }
            assert forall|x: u32| w.to_set().insert(cp).contains(x) implies v@.to_set().contains(
                x,
            ) by {
                if x == cp {
                    assert(v@[lo as int] == x);
                } else {
                    let i = choose|i: int| 0 <= i < w.len() && w[i] == x;
                    if i < lo {
                        assert(v@[i] == x);
                    } else {
                        assert(v@[i + 1] == x);
                    }
                }
            }
            assert(v@.to_set() =~= w.to_set().insert(cp));
        }
    }
}

proof fn lemma_take_push<A>(s: Seq<A>, i: int)
    requires
        0 <= i < s.len(),
    ensures
        s.take(i + 1) =~= s.take(i).push(s[i]),
{
}

proof fn lemma_to_set_push<A>(s: Seq<A>, x: A)
    ensures
        s.push(x).to_set() =~= s.to_set().insert(x),
{
    assert forall|y: A| s.push(x).to_set().contains(y) implies s.to_set().insert(x).contains(y) by {
        let i = choose|i: int| 0 <= i < s.push(x).len() && s.push(x)[i] == y;
        if i < s.len() {
            assert(s[i] == y);
        }
    }
    assert forall|y: A| s.to_set().insert(x).contains(y) implies s.push(x).to_set().contains(y) by {
        if y == x {
            assert(s.push(x)[s.len() as int] == y);
        } else {
            let i = choose|i: int| 0 <= i < s.len() && s[i] == y;
            assert(s.push(x)[i] == y);
        }
    }
}

proof fn lemma_strictly_increasing_no_dup(s: Seq<u32>)
    requires
        strictly_increasing(s),
    ensures
        s.no_duplicates(),
{
}

} // verus!
