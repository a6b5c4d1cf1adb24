//! JIS X 0201 character-set support: halfwidth katakana, the JIS variant
//! of the Latin letters, and the full standard.

use vstd::prelude::*;

use crate::codepoints::{CodePoints, push_range, text_in_set};

verus! {

/// The JIS X 0201 halfwidth katakana code points: U+FF61 through U+FF9F,
/// the five punctuation marks included.
pub open spec fn jisx0201_katakana_set() -> Set<u32> {
    Set::new(|c: u32| 0xFF61 <= c <= 0xFF9F)
}

/// The JIS X 0201 Latin letters: printable ASCII with the yen sign in place
/// of the backslash and the overline in place of the tilde.
pub open spec fn jisx0201_latin_set() -> Set<u32> {
    Set::new(
        |c: u32| (0x20 <= c <= 0x5B) || (0x5D <= c <= 0x7D) || c == 0xA5 || c == 0x203E,
    )
}

/// Every code point of JIS X 0201: the Latin letters and the halfwidth
/// katakana together.
pub open spec fn jisx0201_all_set() -> Set<u32> {
    jisx0201_latin_set().union(jisx0201_katakana_set())
}

/// The JIS X 0201 halfwidth katakana character set.
pub struct Katakana {
    codepoints: CodePoints,
}

impl View for Katakana {
    type V = Set<u32>;

    closed spec fn view(&self) -> Set<u32> {
        self.codepoints@
    }
}

impl Katakana {
    /// The held set is in canonical form.
    pub closed spec fn wf(&self) -> bool {
        self.codepoints.wf()
    }

    /// Creates the halfwidth katakana character set.
    pub fn new() -> (r: Katakana)
        ensures
            r@ == jisx0201_katakana_set(),
            r.wf(),
    {
        let mut v: Vec<u32> = Vec::new();
        push_range(&mut v, 0xFF61, 0xFF9F);
        proof {
            assert(v@.to_set() =~= jisx0201_katakana_set());
        }
        Katakana { codepoints: CodePoints::from_sorted(v) }
    }

    /// The well-known halfwidth katakana set; equal in value to what
    /// [`Katakana::new`] builds.
    pub fn cached() -> (r: Katakana)
        ensures
            r@ == jisx0201_katakana_set(),
            r.wf(),
    {
        Katakana::new()
    }

    /// True when the text holds only halfwidth katakana characters.
    pub fn contains(&self, text: &str) -> (r: bool)
        requires
            self.wf(),
        ensures
            r == text_in_set(self@, text@),
    {
        self.codepoints.contains(text)
    }

    /// The underlying code-point set.
    pub fn codepoints(&self) -> (r: &CodePoints)
        requires
            self.wf(),
        ensures
            r@ == self@,
            r.wf(),
    {
        &self.codepoints
    }
}

impl Default for Katakana {
    fn default() -> (r: Katakana)
        ensures
            r@ == jisx0201_katakana_set(),
            r.wf(),
    {
        Katakana::new()
    }
}

/// The JIS X 0201 Latin-letter character set.
pub struct LatinLetters {
    codepoints: CodePoints,
}

impl View for LatinLetters {
    type V = Set<u32>;

    closed spec fn view(&self) -> Set<u32> {
        self.codepoints@
    }
}

impl LatinLetters {
    /// The held set is in canonical form.
    pub closed spec fn wf(&self) -> bool {
        self.codepoints.wf()
    }

    /// Creates the JIS X 0201 Latin-letter character set.
    pub fn new() -> (r: LatinLetters)
        ensures
            r@ == jisx0201_latin_set(),
            r.wf(),
    {
        let mut v: Vec<u32> = Vec::new();
        push_range(&mut v, 0x20, 0x5B);
        push_range(&mut v, 0x5D, 0x7D);
        push_range(&mut v, 0xA5, 0xA5);
        push_range(&mut v, 0x203E, 0x203E);
        proof {
            assert(v@.to_set() =~= jisx0201_latin_set());
        }
        LatinLetters { codepoints: CodePoints::from_sorted(v) }
    }

    /// The well-known JIS X 0201 Latin set; equal in value to what
    /// [`LatinLetters::new`] builds.
    pub fn cached() -> (r: LatinLetters)
        ensures
            r@ == jisx0201_latin_set(),
            r.wf(),
    {
        LatinLetters::new()
    }

    /// True when the text holds only JIS X 0201 Latin letters.
    pub fn contains(&self, text: &str) -> (r: bool)
        requires
            self.wf(),
        ensures
            r == text_in_set(self@, text@),
    {
        self.codepoints.contains(text)
    }

    /// The underlying code-point set.
    pub fn codepoints(&self) -> (r: &CodePoints)
        requires
            self.wf(),
        ensures
            r@ == self@,
            r.wf(),
    {
        &self.codepoints
    }
}

impl Default for LatinLetters {
    fn default() -> (r: LatinLetters)
        ensures
            r@ == jisx0201_latin_set(),
            r.wf(),
    {
        LatinLetters::new()
    }
}

/// The complete JIS X 0201 character set.
pub struct JisX0201 {
    codepoints: CodePoints,
}

impl View for JisX0201 {
    type V = Set<u32>;

    closed spec fn view(&self) -> Set<u32> {
        self.codepoints@
    }
}

impl JisX0201 {
    /// The held set is in canonical form.
    pub closed spec fn wf(&self) -> bool {
        self.codepoints.wf()
    }

    /// Creates the complete JIS X 0201 character set.
    pub fn new() -> (r: JisX0201)
        ensures
            r@ == jisx0201_all_set(),
            r.wf(),
    {
        let mut v: Vec<u32> = Vec::new();
        push_range(&mut v, 0x20, 0x5B);
        push_range(&mut v, 0x5D, 0x7D);
        push_range(&mut v, 0xA5, 0xA5);
        push_range(&mut v, 0x203E, 0x203E);
        push_range(&mut v, 0xFF61, 0xFF9F);
        proof {
            assert(v@.to_set() =~= jisx0201_all_set());
        }
        JisX0201 { codepoints: CodePoints::from_sorted(v) }
    }

    /// True when the text holds only JIS X 0201 characters.
    pub fn contains(&self, text: &str) -> (r: bool)
        requires
            self.wf(),
        ensures
            r == text_in_set(self@, text@),
    {
        self.codepoints.contains(text)
    }

    /// The underlying code-point set.
    pub fn codepoints(&self) -> (r: &CodePoints)
        requires
            self.wf(),
        ensures
            r@ == self@,
            r.wf(),
    {
        &self.codepoints
    }
}

impl Default for JisX0201 {
    fn default() -> (r: JisX0201)
        ensures
            r@ == jisx0201_all_set(),
            r.wf(),
    {
        JisX0201::new()
    }
}

} // verus!
