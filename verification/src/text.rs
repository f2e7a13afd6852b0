//! Text validation for titles and contents: byte-length limits and the
//! whitespace-trim emptiness test, together with the handler-body check
//! order for creation and update.
use crate::error::ErrorCode;
use vstd::prelude::*;
use vstd::string::StrSliceExecFns;

verus! {

broadcast use vstd::slice::axiom_spec_len;

/// Largest accepted title, in bytes of its UTF-8 encoding.
pub const MAX_TITLE_BYTES: usize = 100;

/// Largest accepted content, in bytes of its UTF-8 encoding.
pub const MAX_CONTENT_BYTES: usize = 1090;

/// The byte length of a text: the length of its UTF-8 encoding.
pub open spec fn byte_len(s: Seq<char>) -> nat {
    vstd::utf8::encode_utf8(s).len()
}

/// Whether a character counts as whitespace for trimming.
pub uninterp spec fn is_ws_char(c: char) -> bool;

/// Relies on char::is_whitespace: whether the character has the Unicode
/// White_Space property, a function of the character alone.
#[verifier::external_body]
fn char_is_ws(c: char) -> (r: bool)
    ensures
        r == is_ws_char(c),
{
    c.is_whitespace()
}

/// A text is blank when trimming whitespace from both ends leaves nothing:
/// every character is whitespace. The empty text is blank.
pub open spec fn blank(s: Seq<char>) -> bool {
    forall|i: int| 0 <= i < s.len() ==> is_ws_char(#[trigger] s[i])
}

/// Whether trimming whitespace from the text leaves nothing.
pub fn is_blank(s: &str) -> (r: bool)
    ensures
        r == blank(s@),
{
    let n = s.unicode_len();
    let mut i: usize = 0;
    while i < n
        invariant
            n == s@.len(),
            0 <= i <= n,
            forall|j: int| 0 <= j < i ==> is_ws_char(#[trigger] s@[j]),
        decreases n - i,
    {
        let c = s.get_char(i);
        if !char_is_ws(c) {
            assert(!blank(s@));
            return false;
        }
        i = i + 1;
    }
    true
}

/// A title is acceptable when its UTF-8 byte length is at most the limit and
/// it is not blank.
pub open spec fn title_ok(t: Seq<char>) -> bool {
    byte_len(t) <= MAX_TITLE_BYTES && !blank(t)
}

/// A content is acceptable when its UTF-8 byte length is at most the limit
/// and it is not blank.
pub open spec fn content_ok(c: Seq<char>) -> bool {
    byte_len(c) <= MAX_CONTENT_BYTES && !blank(c)
}

/// The handler-body checks of creation, in their declared order: the first
/// failing predicate decides the error.
pub open spec fn create_check(title: Seq<char>, content: Seq<char>) -> Result<(), ErrorCode> {
    if byte_len(title) > MAX_TITLE_BYTES {
        Err(ErrorCode::TitleTooLong)
    } else if byte_len(content) > MAX_CONTENT_BYTES {
        Err(ErrorCode::ContentTooLong)
    } else if blank(title) {
        Err(ErrorCode::TitleEmpty)
    } else if blank(content) {
        Err(ErrorCode::ContentEmpty)
    } else {
        Ok(())
    }
}

/// The handler-body checks of update on the new content, in their declared
/// order.
pub open spec fn content_check(content: Seq<char>) -> Result<(), ErrorCode> {
    if byte_len(content) > MAX_CONTENT_BYTES {
        Err(ErrorCode::ContentTooLong)
    } else if blank(content) {
        Err(ErrorCode::ContentEmpty)
    } else {
        Ok(())
    }
}

/// Runs the creation checks in declared order and reports the first failure.
pub fn validate_create(title: &str, content: &str) -> (r: Result<(), ErrorCode>)
    ensures
        r == create_check(title@, content@),
{
    if title.as_bytes().len() > MAX_TITLE_BYTES {
        Err(ErrorCode::TitleTooLong)
    } else if content.as_bytes().len() > MAX_CONTENT_BYTES {
        Err(ErrorCode::ContentTooLong)
    } else if is_blank(title) {
        Err(ErrorCode::TitleEmpty)
    } else if is_blank(content) {
        Err(ErrorCode::ContentEmpty)
    } else {
        Ok(())
    }
}

/// Runs the update checks on the new content in declared order and reports
/// the first failure.
pub fn validate_content(content: &str) -> (r: Result<(), ErrorCode>)
    ensures
        r == content_check(content@),
{
    if content.as_bytes().len() > MAX_CONTENT_BYTES {
        Err(ErrorCode::ContentTooLong)
    } else if is_blank(content) {
        Err(ErrorCode::ContentEmpty)
    } else {
        Ok(())
    }
}

} // verus!
