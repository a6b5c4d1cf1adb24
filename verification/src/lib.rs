//! Character-set membership and validation for the Japanese text-encoding
//! standards: ASCII, JIS X 0201, JIS X 0208 and the JIS X 0208/0213 kanji.
//!
//! The heart of the crate is [`CodePoints`], an immutable set of Unicode
//! scalar values with membership tests, exclusion diagnostics, validation
//! and set algebra, every operation carrying a proved contract.

pub mod codepoints;
pub mod jisx0201;
pub mod jisx0208;
pub mod jisx0208kanji;
pub mod jisx0213kanji;
pub mod laws;
pub mod validation;

pub use codepoints::CodePoints;
pub use jisx0201::{JisX0201, Katakana as JisX0201Katakana, LatinLetters as JisX0201LatinLetters};
pub use jisx0208::{
    BoxDrawingChars, CyrillicLetters, GreekLetters, Hiragana, JisX0208, Katakana, LatinLetters,
    SpecialChars,
};
pub use jisx0208kanji::JisX0208Kanji;
pub use jisx0213kanji::JisX0213Kanji;
pub use validation::ValidationError;
