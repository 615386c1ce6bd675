//! Request validation: well-formedness checks on an enqueue request, pure
//! and free of side effects.

use vstd::prelude::*;

verus! {

/// Why an enqueue request was rejected as malformed.
#[derive(Clone, Copy, Debug, PartialEq, Eq, Structural)]
pub enum ValidationError {
    /// The submitter, target, or content is empty.
    EmptyField,
    /// The target is not exactly `TARGET_LEN` characters long.
    MalformedTarget,
    /// The content is shorter than `CONTENT_MIN_LEN` or longer than
    /// `CONTENT_MAX_LEN` characters.
    ContentLength,
}

/// Required length of a target identifier, in characters.
pub const TARGET_LEN: usize = 11;

/// Smallest accepted content length, in characters.
pub const CONTENT_MIN_LEN: usize = 10;

/// Largest accepted content length, in characters.
pub const CONTENT_MAX_LEN: usize = 200;

/// Whether the content length is within the accepted bounds.
pub open spec fn spec_content_ok(content: Seq<char>) -> bool {
    CONTENT_MIN_LEN <= content.len() <= CONTENT_MAX_LEN
}

/// What `validate_request` returns: the first failing check, in the order
/// empty fields, target length, content length; `Ok` when all pass.
pub open spec fn spec_validate(
    submitter_id: Seq<char>,
    target: Seq<char>,
    content: Seq<char>,
) -> Result<(), ValidationError> {
    if submitter_id.len() == 0 || target.len() == 0 || content.len() == 0 {
        Err(ValidationError::EmptyField)
    } else if target.len() != TARGET_LEN {
        Err(ValidationError::MalformedTarget)
    } else if !spec_content_ok(content) {
        Err(ValidationError::ContentLength)
    } else {
        Ok(())
    }
}

/// Checks that the content length lies within the accepted bounds; on
/// failure the second component carries a human-readable message.
pub fn validate_content(content: &str) -> (r: (bool, String))
    ensures
        r.0 == spec_content_ok(content@),
        r.0 ==> r.1@.len() == 0,
{
    let n = content.unicode_len();
    if n < CONTENT_MIN_LEN || n > CONTENT_MAX_LEN {
        (false, String::from_str("content length must be between 10 and 200 characters"))
    } else {
        (true, String::new())
    }
}

/// Checks an enqueue request for well-formedness: no empty field, a target
/// of exactly `TARGET_LEN` characters, and content within the length bounds.
pub fn validate_request(submitter_id: &str, target: &str, content: &str) -> (r: Result<
    (),
    ValidationError,
>)
    ensures
        r == spec_validate(submitter_id@, target@, content@),
{
    let submitter_len = submitter_id.unicode_len();
    let target_len = target.unicode_len();
    let content_len = content.unicode_len();
    if submitter_len == 0 || target_len == 0 || content_len == 0 {
        Err(ValidationError::EmptyField)
    } else if target_len != TARGET_LEN {
        Err(ValidationError::MalformedTarget)
    } else if content_len < CONTENT_MIN_LEN || content_len > CONTENT_MAX_LEN {
        Err(ValidationError::ContentLength)
    } else {
        Ok(())
    }
}

} // verus!
