//! The business rules on book content: a field must not trim to nothing and
//! must stay within its length limit.

use vstd::prelude::*;
use vstd::string::{StrSliceExecFns, StringExecFns};
use crate::error::AppError;

verus! {

/// Whether a character counts as whitespace for trimming.
pub uninterp spec fn is_whitespace_char(c: char) -> bool;

/// Relies on char::is_whitespace: whether the character has the Unicode
/// White_Space property, a function of the character alone.
#[verifier::external_body]
fn char_is_whitespace(c: char) -> (r: bool)
    ensures
        r == is_whitespace_char(c),
{
    c.is_whitespace()
}

/// Whether a string trims to nothing: every character is whitespace. An empty
/// string trims to nothing.
pub open spec fn all_whitespace(s: Seq<char>) -> bool {
    forall|i: int| 0 <= i < s.len() ==> is_whitespace_char(s[i])
}

/// The length limit on a title, in characters.
pub const TITLE_MAX: usize = 200;

/// The length limit on an author, in characters.
pub const AUTHOR_MAX: usize = 100;

/// A title passes validation: non-empty after trimming and within its limit.
pub open spec fn title_valid(s: Seq<char>) -> bool {
    !all_whitespace(s) && s.len() <= TITLE_MAX
}

/// An author passes validation: non-empty after trimming and within its limit.
pub open spec fn author_valid(s: Seq<char>) -> bool {
    !all_whitespace(s) && s.len() <= AUTHOR_MAX
}

/// The reason a title is rejected: emptiness is reported before length.
pub open spec fn title_error_reason(s: Seq<char>) -> Seq<char> {
    if all_whitespace(s) {
        "title cannot be empty"@
    } else {
        "title too long"@
    }
}

/// The reason an author is rejected: emptiness is reported before length.
pub open spec fn author_error_reason(s: Seq<char>) -> Seq<char> {
    if all_whitespace(s) {
        "author cannot be empty"@
    } else {
        "author too long"@
    }
}

/// Whether the string trims to nothing.
fn trimmed_empty(s: &str) -> (r: bool)
    ensures
        r == all_whitespace(s@),
{
    let n = s.unicode_len();
    let mut i: usize = 0;
    while i < n
        invariant
            n == s@.len(),
            0 <= i <= n,
            forall|j: int| 0 <= j < i ==> is_whitespace_char(s@[j]),
        decreases n - i,
    {
        let c = s.get_char(i);
        if !char_is_whitespace(c) {
            assert(!is_whitespace_char(s@[i as int]));
            return false;
        }
        i += 1;
    }
    true
}

/// Checks a title against the business rules, with the exact rejection reason.
pub fn validate_title(title: &str) -> (r: Result<(), AppError>)
    ensures
        r is Ok <==> title_valid(title@),
        (match r {
            Ok(()) => true,
            Err(e) => e matches AppError::Validation(m) && m@ == title_error_reason(title@),
        }),
{
    if trimmed_empty(title) {
        return Err(AppError::Validation(String::from_str("title cannot be empty")));
    }
    if title.unicode_len() > TITLE_MAX {
        return Err(AppError::Validation(String::from_str("title too long")));
    }
    Ok(())
}

/// Checks an author against the business rules, with the exact rejection reason.
pub fn validate_author(author: &str) -> (r: Result<(), AppError>)
    ensures
        r is Ok <==> author_valid(author@),
        (match r {
            Ok(()) => true,
            Err(e) => e matches AppError::Validation(m) && m@ == author_error_reason(author@),
        }),
{
    if trimmed_empty(author) {
        return Err(AppError::Validation(String::from_str("author cannot be empty")));
    }
    if author.unicode_len() > AUTHOR_MAX {
        return Err(AppError::Validation(String::from_str("author too long")));
    }
    Ok(())
}

} // verus!
