//! Validation of texts against code-point sets, with a diagnostic error
//! naming the first offending character and its position.

use vstd::prelude::*;

use crate::codepoints::{CodePoints, cp_in_any, text_cps, text_in_any, text_in_set};

verus! {

/// A failed validation: the first scalar value of the text that no
/// consulted set accepts, its zero-based character index, and a rendered
/// message.
#[derive(Clone, Debug)]
pub struct ValidationError {
    /// The offending Unicode scalar value.
    pub code_point: u32,
    /// The zero-based character index of the offending value, counting
    /// characters, not encoded units.
    pub position: usize,
    /// A human-readable account of the failure.
    pub message: String,
}

/// Relies on std's format macro and char::from_u32: renders the message
/// "invalid character 'X' (U+XXXX) at position N", with the replacement
/// character standing in when the code point is no scalar value.
#[verifier::external_body]
fn render_invalid_char_message(cp: u32, position: usize) -> String {
    format!(
        "invalid character '{}' (U+{:04X}) at position {}",
        char::from_u32(cp).unwrap_or('\u{FFFD}'),
        cp,
        position,
    )
}

impl CodePoints {
    /// Validates that every scalar value of `s` is a member of the set:
    /// `Ok` exactly when it is, otherwise an error naming the first
    /// excluded value and its character index.
    pub fn validate(&self, s: &str) -> (r: Result<(), ValidationError>)
        requires
            self.wf(),
        ensures
            r is Ok <==> text_in_set(self@, s@),
            r is Err ==> (r->Err_0).position < s@.len(),
            r is Err ==> (r->Err_0).code_point == s@[(r->Err_0).position as int] as u32
                && !self@.contains((r->Err_0).code_point),
            r is Err ==> forall|j: int|
                0 <= j < (r->Err_0).position ==> self@.contains(#[trigger] s@[j] as u32),
    {
        match self.first_excluded_with_position(s) {
            None => Ok(()),
            Some((cp, pos)) => Err(
                ValidationError {
                    code_point: cp,
                    position: pos,
                    message: render_invalid_char_message(cp, pos),
                },
            ),
        }
    }

    /// Validates that every scalar value of `s` is a member of at least one
    /// set in the list: `Ok` exactly when it is, otherwise an error naming
    /// the first value that no set accepts and its character index.
    ///
    /// With an empty list no character is accepted, so every text fails at
    /// its first character; the empty text alone validates, vacuously. That
    /// deliberately differs from [`CodePoints::contains_all_in_any`], which
    /// refuses the empty list whatever the text.
    pub fn validate_all_in_any(s: &str, codepoints_list: &[CodePoints]) -> (r: Result<
        (),
        ValidationError,
    >)
        requires
            forall|j: int|
                0 <= j < codepoints_list@.len() ==> (#[trigger] codepoints_list@[j]).wf(),
        ensures
            r is Ok <==> text_in_any(codepoints_list@, s@),
            r is Err ==> (r->Err_0).position < s@.len(),
            r is Err ==> (r->Err_0).code_point == s@[(r->Err_0).position as int] as u32
                && !cp_in_any(codepoints_list@, (r->Err_0).code_point),
            r is Err ==> forall|j: int|
                0 <= j < (r->Err_0).position ==> cp_in_any(
                    codepoints_list@,
                    #[trigger] s@[j] as u32,
                ),
    {
        let cps = crate::codepoints::text_code_points(s);
        let n = cps.len();
        for i in 0..n
            invariant
                n == cps.len(),
                cps@ == text_cps(s@),
                forall|j: int|
                    0 <= j < codepoints_list@.len() ==> (#[trigger] codepoints_list@[j]).wf(),
                forall|k: int| 0 <= k < i ==> #[trigger] cp_in_any(codepoints_list@, s@[k] as u32),
        {
            let cp = cps[i];
            proof {
                assert(cps@[i as int] == s@[i as int] as u32);
            }
            let m = codepoints_list.len();
            let mut found = false;
            for j in 0..m
                invariant
                    m == codepoints_list@.len(),
                    forall|l: int|
                        0 <= l < codepoints_list@.len() ==> (#[trigger] codepoints_list@[l]).wf(),
                    found ==> cp_in_any(codepoints_list@, cp),
                    !found ==> forall|l: int|
                        0 <= l < j ==> !(#[trigger] codepoints_list@[l])@.contains(cp),
            {
                if codepoints_list[j].contains_cp(cp) {
                    found = true;
                }
            }
            if !found {
                proof {
                    assert(!cp_in_any(codepoints_list@, s@[i as int] as u32));
                }
                return Err(
                    ValidationError {
                        code_point: cp,
                        position: i,
                        message: render_invalid_char_message(cp, i),
                    },
                );
            }
        }
        Ok(())
    }
}

} // verus!
