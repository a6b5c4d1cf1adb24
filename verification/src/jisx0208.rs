//! JIS X 0208 character-set support, the kanji rows excepted: hiragana,
//! katakana, fullwidth Latin letters, Greek and Cyrillic letters, the
//! special characters, the box-drawing characters, and the whole standard.

use vstd::prelude::*;

use crate::codepoints::{CodePoints, push_range, text_cps, text_in_set};

verus! {

/// The JIS X 0208 special characters: the punctuation, bracket, operator
/// and symbol rows of the standard, as a seed string.
const SPECIAL_CHARS_SEED: &'static str = "　、。，．・：；？！゛゜´｀¨＾￣＿ヽヾゝゞ〃仝々〆〇ー―‐／＼〜‖｜…‥‘’“”（）〔〕［］｛｝〈〉《》「」『』【】＋−±×÷＝≠＜＞≦≧∞∴♂♀°′″℃￥＄¢£％＃＆＊＠§☆★○●◎◇◆□■△▲▽▼※〒→←↑↓〓∈∋⊆⊇⊂⊃∪∩∧∨¬⇒⇔∀∃∠⊥⌒∂∇≡≒≪≫√∽∝∵∫∬Å‰♯♭♪†‡¶◯";

/// The JIS X 0208 box-drawing characters, light and heavy, as a seed string.
const BOX_DRAWING_SEED: &'static str = "─│┌┐┘└├┬┤┴┼━┃┏┓┛┗┣┳┫┻╋┠┯┨┷┿┝┰┥┸╂";

/// The JIS X 0208 hiragana code points: U+3041 through U+3093.
pub open spec fn jisx0208_hiragana_set() -> Set<u32> {
    Set::new(|c: u32| 0x3041 <= c <= 0x3093)
}

/// The JIS X 0208 katakana code points: U+30A1 through U+30F6.
pub open spec fn jisx0208_katakana_set() -> Set<u32> {
    Set::new(|c: u32| 0x30A1 <= c <= 0x30F6)
}

/// The JIS X 0208 fullwidth Latin letters and digits.
pub open spec fn jisx0208_latin_set() -> Set<u32> {
    Set::new(
        |c: u32| (0xFF10 <= c <= 0xFF19) || (0xFF21 <= c <= 0xFF3A) || (0xFF41 <= c <= 0xFF5A),
    )
}

/// The JIS X 0208 Greek letters, upper and lower case; the standard has no
/// final sigma.
pub open spec fn jisx0208_greek_set() -> Set<u32> {
    Set::new(
        |c: u32| (0x0391 <= c <= 0x03A9 && c != 0x03A2) || (0x03B1 <= c <= 0x03C9 && c != 0x03C2),
    )
}

/// The JIS X 0208 Cyrillic letters, upper and lower case, the letter Io
/// included.
pub open spec fn jisx0208_cyrillic_set() -> Set<u32> {
    Set::new(|c: u32| c == 0x0401 || (0x0410 <= c <= 0x044F) || c == 0x0451)
}

/// The JIS X 0208 special characters.
pub closed spec fn jisx0208_special_set() -> Set<u32> {
    text_cps(SPECIAL_CHARS_SEED@).to_set()
}

/// The JIS X 0208 box-drawing characters.
pub closed spec fn jisx0208_box_drawing_set() -> Set<u32> {
    text_cps(BOX_DRAWING_SEED@).to_set()
}

/// Every code point of JIS X 0208 outside the kanji rows.
pub open spec fn jisx0208_all_set() -> Set<u32> {
    jisx0208_hiragana_set().union(jisx0208_katakana_set()).union(jisx0208_latin_set()).union(
        jisx0208_greek_set(),
    ).union(jisx0208_cyrillic_set()).union(jisx0208_special_set()).union(
        jisx0208_box_drawing_set(),
    )
}

/// The JIS X 0208 hiragana character set.
pub struct Hiragana {
    codepoints: CodePoints,
}

impl View for Hiragana {
    type V = Set<u32>;

    closed spec fn view(&self) -> Set<u32> {
        self.codepoints@
    }
}

impl Hiragana {
    /// The held set is in canonical form.
    pub closed spec fn wf(&self) -> bool {
        self.codepoints.wf()
    }

    /// Creates the hiragana character set.
    pub fn new() -> (r: Hiragana)
        ensures
            r@ == jisx0208_hiragana_set(),
            r.wf(),
    {
        let mut v: Vec<u32> = Vec::new();
        push_range(&mut v, 0x3041, 0x3093);
        proof {
            assert(v@.to_set() =~= jisx0208_hiragana_set());
        }
        Hiragana { codepoints: CodePoints::from_sorted(v) }
    }

    /// The well-known set; equal in value to what [`Hiragana::new`] builds.
    pub fn cached() -> (r: Hiragana)
        ensures
            r@ == jisx0208_hiragana_set(),
            r.wf(),
    {
        Hiragana::new()
    }

    /// True when the text holds only characters of this set.
    pub fn contains(&self, text: &str) -> (r: bool)
        requires
            self.wf(),
        ensures
            r == text_in_set(self@, text@),
    {
        self.codepoints.contains(text)
    }

    /// The underlying code-point set.
    pub fn codepoints(&self) -> (r: &CodePoints)
        requires
            self.wf(),
        ensures
            r@ == self@,
            r.wf(),
    {
        &self.codepoints
    }
}

impl Default for Hiragana {
    fn default() -> (r: Hiragana)
        ensures
            r@ == jisx0208_hiragana_set(),
            r.wf(),
    {
        Hiragana::new()
    }
}

/// The JIS X 0208 katakana character set.
pub struct Katakana {
    codepoints: CodePoints,
}

impl View for Katakana {
    type V = Set<u32>;

    closed spec fn view(&self) -> Set<u32> {
        self.codepoints@
    }
}

impl Katakana {
    /// The held set is in canonical form.
    pub closed spec fn wf(&self) -> bool {
        self.codepoints.wf()
    }

    /// Creates the katakana character set.
    pub fn new() -> (r: Katakana)
        ensures
            r@ == jisx0208_katakana_set(),
            r.wf(),
    {
        let mut v: Vec<u32> = Vec::new();
        push_range(&mut v, 0x30A1, 0x30F6);
        proof {
            assert(v@.to_set() =~= jisx0208_katakana_set());
        }
        Katakana { codepoints: CodePoints::from_sorted(v) }
    }

    /// The well-known set; equal in value to what [`Katakana::new`] builds.
    pub fn cached() -> (r: Katakana)
        ensures
            r@ == jisx0208_katakana_set(),
            r.wf(),
    {
        Katakana::new()
    }

    /// True when the text holds only characters of this set.
    pub fn contains(&self, text: &str) -> (r: bool)
        requires
            self.wf(),
        ensures
            r == text_in_set(self@, text@),
    {
        self.codepoints.contains(text)
    }

    /// The underlying code-point set.
    pub fn codepoints(&self) -> (r: &CodePoints)
        requires
            self.wf(),
        ensures
            r@ == self@,
            r.wf(),
    {
        &self.codepoints
    }
}

impl Default for Katakana {
    fn default() -> (r: Katakana)
        ensures
            r@ == jisx0208_katakana_set(),
            r.wf(),
    {
        Katakana::new()
    }
}

/// The JIS X 0208 fullwidth Latin character set.
pub struct LatinLetters {
    codepoints: CodePoints,
}

impl View for LatinLetters {
    type V = Set<u32>;

    closed spec fn view(&self) -> Set<u32> {
        self.codepoints@
    }
}

impl LatinLetters {
    /// The held set is in canonical form.
    pub closed spec fn wf(&self) -> bool {
        self.codepoints.wf()
    }

    /// Creates the fullwidth Latin character set.
    pub fn new() -> (r: LatinLetters)
        ensures
            r@ == jisx0208_latin_set(),
            r.wf(),
    {
        let mut v: Vec<u32> = Vec::new();
        push_range(&mut v, 0xFF10, 0xFF19);
        push_range(&mut v, 0xFF21, 0xFF3A);
        push_range(&mut v, 0xFF41, 0xFF5A);
        proof {
            assert(v@.to_set() =~= jisx0208_latin_set());
        }
        LatinLetters { codepoints: CodePoints::from_sorted(v) }
    }

    /// True when the text holds only characters of this set.
    pub fn contains(&self, text: &str) -> (r: bool)
        requires
            self.wf(),
        ensures
            r == text_in_set(self@, text@),
    {
        self.codepoints.contains(text)
    }

    /// The underlying code-point set.
    pub fn codepoints(&self) -> (r: &CodePoints)
        requires
            self.wf(),
        ensures
            r@ == self@,
            r.wf(),
    {
        &self.codepoints
    }
}

impl Default for LatinLetters {
    fn default() -> (r: LatinLetters)
        ensures
            r@ == jisx0208_latin_set(),
            r.wf(),
    {
        LatinLetters::new()
    }
}

/// The JIS X 0208 Greek-letter character set.
pub struct GreekLetters {
    codepoints: CodePoints,
}

impl View for GreekLetters {
    type V = Set<u32>;

    closed spec fn view(&self) -> Set<u32> {
        self.codepoints@
    }
}

impl GreekLetters {
    /// The held set is in canonical form.
    pub closed spec fn wf(&self) -> bool {
        self.codepoints.wf()
    }

    /// Creates the Greek-letter character set.
    pub fn new() -> (r: GreekLetters)
        ensures
            r@ == jisx0208_greek_set(),
            r.wf(),
    {
        let mut v: Vec<u32> = Vec::new();
        push_range(&mut v, 0x0391, 0x03A1);
        push_range(&mut v, 0x03A3, 0x03A9);
        push_range(&mut v, 0x03B1, 0x03C1);
        push_range(&mut v, 0x03C3, 0x03C9);
        proof {
            assert(v@.to_set() =~= jisx0208_greek_set());
        }
        GreekLetters { codepoints: CodePoints::from_sorted(v) }
    }

    /// True when the text holds only characters of this set.
    pub fn contains(&self, text: &str) -> (r: bool)
        requires
            self.wf(),
        ensures
            r == text_in_set(self@, text@),
    {
        self.codepoints.contains(text)
    }

    /// The underlying code-point set.
    pub fn codepoints(&self) -> (r: &CodePoints)
        requires
            self.wf(),
        ensures
            r@ == self@,
            r.wf(),
    {
        &self.codepoints
    }
}

impl Default for GreekLetters {
    fn default() -> (r: GreekLetters)
        ensures
            r@ == jisx0208_greek_set(),
            r.wf(),
    {
        GreekLetters::new()
    }
}

/// The JIS X 0208 Cyrillic-letter character set.
pub struct CyrillicLetters {
    codepoints: CodePoints,
}

impl View for CyrillicLetters {
    type V = Set<u32>;

    closed spec fn view(&self) -> Set<u32> {
        self.codepoints@
    }
}

impl CyrillicLetters {
    /// The held set is in canonical form.
    pub closed spec fn wf(&self) -> bool {
        self.codepoints.wf()
    }

    /// Creates the Cyrillic-letter character set.
    pub fn new() -> (r: CyrillicLetters)
        ensures
            r@ == jisx0208_cyrillic_set(),
            r.wf(),
    {
        let mut v: Vec<u32> = Vec::new();
        push_range(&mut v, 0x0401, 0x0401);
        push_range(&mut v, 0x0410, 0x044F);
        push_range(&mut v, 0x0451, 0x0451);
        proof {
            assert(v@.to_set() =~= jisx0208_cyrillic_set());
        }
        CyrillicLetters { codepoints: CodePoints::from_sorted(v) }
    }

    /// True when the text holds only characters of this set.
    pub fn contains(&self, text: &str) -> (r: bool)
        requires
            self.wf(),
        ensures
            r == text_in_set(self@, text@),
    {
        self.codepoints.contains(text)
    }

    /// The underlying code-point set.
    pub fn codepoints(&self) -> (r: &CodePoints)
        requires
            self.wf(),
        ensures
            r@ == self@,
            r.wf(),
    {
        &self.codepoints
    }
}

impl Default for CyrillicLetters {
    fn default() -> (r: CyrillicLetters)
        ensures
            r@ == jisx0208_cyrillic_set(),
            r.wf(),
    {
        CyrillicLetters::new()
    }
}

/// The JIS X 0208 special-character set.
pub struct SpecialChars {
    codepoints: CodePoints,
}

impl View for SpecialChars {
    type V = Set<u32>;

    closed spec fn view(&self) -> Set<u32> {
        self.codepoints@
    }
}

impl SpecialChars {
    /// The held set is in canonical form.
    pub closed spec fn wf(&self) -> bool {
        self.codepoints.wf()
    }

    /// Creates the special-character set.
    pub fn new() -> (r: SpecialChars)
        ensures
            r@ == jisx0208_special_set(),
            r.wf(),
    {
        SpecialChars { codepoints: CodePoints::from_string(SPECIAL_CHARS_SEED) }
    }

    /// True when the text holds only characters of this set.
    pub fn contains(&self, text: &str) -> (r: bool)
        requires
            self.wf(),
        ensures
            r == text_in_set(self@, text@),
    {
        self.codepoints.contains(text)
    }

    /// The underlying code-point set.
    pub fn codepoints(&self) -> (r: &CodePoints)
        requires
            self.wf(),
        ensures
            r@ == self@,
            r.wf(),
    {
        &self.codepoints
    }
}

impl Default for SpecialChars {
    fn default() -> (r: SpecialChars)
        ensures
            r@ == jisx0208_special_set(),
            r.wf(),
    {
        SpecialChars::new()
    }
}

/// The JIS X 0208 box-drawing character set.
pub struct BoxDrawingChars {
    codepoints: CodePoints,
}

impl View for BoxDrawingChars {
    type V = Set<u32>;

    closed spec fn view(&self) -> Set<u32> {
        self.codepoints@
    }
}

impl BoxDrawingChars {
    /// The held set is in canonical form.
    pub closed spec fn wf(&self) -> bool {
        self.codepoints.wf()
    }

    /// Creates the box-drawing character set.
    pub fn new() -> (r: BoxDrawingChars)
        ensures
            r@ == jisx0208_box_drawing_set(),
            r.wf(),
    {
        BoxDrawingChars { codepoints: CodePoints::from_string(BOX_DRAWING_SEED) }
    }

    /// True when the text holds only characters of this set.
    pub fn contains(&self, text: &str) -> (r: bool)
        requires
            self.wf(),
        ensures
            r == text_in_set(self@, text@),
    {
        self.codepoints.contains(text)
    }

    /// The underlying code-point set.
    pub fn codepoints(&self) -> (r: &CodePoints)
        requires
            self.wf(),
        ensures
            r@ == self@,
            r.wf(),
    {
        &self.codepoints
    }
}

impl Default for BoxDrawingChars {
    fn default() -> (r: BoxDrawingChars)
        ensures
            r@ == jisx0208_box_drawing_set(),
            r.wf(),
    {
        BoxDrawingChars::new()
    }
}

/// The complete JIS X 0208 character set, the kanji rows excepted.
pub struct JisX0208 {
    codepoints: CodePoints,
}

impl View for JisX0208 {
    type V = Set<u32>;

    closed spec fn view(&self) -> Set<u32> {
        self.codepoints@
    }
}

impl JisX0208 {
    /// The held set is in canonical form.
    pub closed spec fn wf(&self) -> bool {
        self.codepoints.wf()
    }

    /// Creates the complete JIS X 0208 character set, the kanji rows excepted.
    pub fn new() -> (r: JisX0208)
        ensures
            r@ == jisx0208_all_set(),
            r.wf(),
    {
        let hiragana = Hiragana::new();
        let katakana = Katakana::new();
        let latin = LatinLetters::new();
        let greek = GreekLetters::new();
        let cyrillic = CyrillicLetters::new();
        let special = SpecialChars::new();
        let boxes = BoxDrawingChars::new();
        let cp = hiragana.codepoints().union(katakana.codepoints()).union(
            latin.codepoints(),
        ).union(greek.codepoints()).union(cyrillic.codepoints()).union(
            special.codepoints(),
        ).union(boxes.codepoints());
        JisX0208 { codepoints: cp }
    }

    /// True when the text holds only characters of this set.
    pub fn contains(&self, text: &str) -> (r: bool)
        requires
            self.wf(),
        ensures
            r == text_in_set(self@, text@),
    {
        self.codepoints.contains(text)
    }

    /// The underlying code-point set.
    pub fn codepoints(&self) -> (r: &CodePoints)
        requires
            self.wf(),
        ensures
            r@ == self@,
            r.wf(),
    {
        &self.codepoints
    }
}

impl Default for JisX0208 {
    fn default() -> (r: JisX0208)
        ensures
            r@ == jisx0208_all_set(),
            r.wf(),
    {
        JisX0208::new()
    }
}
} // verus!
