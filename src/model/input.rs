//! Field-level checks on mutation arguments, made before any statement runs.
use vstd::prelude::*;

use crate::text::{decimal_string, decimal_string_unsigned, decimal_text};

verus! {

/// Fewest characters in a title.
pub const TITLE_MIN_LENGTH: usize = 3;
/// Most characters in a title.
pub const TITLE_MAX_LENGTH: usize = 64;
/// Fewest characters in a body.
pub const BODY_MIN_LENGTH: usize = 3;
/// Most characters in a body.
pub const BODY_MAX_LENGTH: usize = 64_000;

pub open spec fn valid_title(title: Seq<char>) -> bool {
    TITLE_MIN_LENGTH <= title.len() <= TITLE_MAX_LENGTH
}

pub open spec fn valid_body(body: Seq<char>) -> bool {
    BODY_MIN_LENGTH <= body.len() <= BODY_MAX_LENGTH
}

/// Identifiers given to `deleteDraft` and `publish` are never negative.
pub open spec fn valid_post_id(id: int) -> bool {
    id >= 0
}

/// A rejected argument: which one, and why.
#[derive(Debug, Clone, PartialEq)]
pub struct InputViolation {
    pub field: String,
    pub message: String,
}

/// The message for a string of `len` characters below the minimum `min`.
pub open spec fn too_short_message(len: int, min: int) -> Seq<char> {
    "the string length is "@ + decimal_text(len) + ", must be greater than or equal to "@
        + decimal_text(min)
}

/// The message for a string of `len` characters above the maximum `max`.
pub open spec fn too_long_message(len: int, max: int) -> Seq<char> {
    "the string length is "@ + decimal_text(len) + ", must be less than or equal to "@
        + decimal_text(max)
}

/// The message for a number `value` below the minimum `min`.
pub open spec fn below_minimum_message(value: int, min: int) -> Seq<char> {
    "the value is "@ + decimal_text(value) + ", must be greater than or equal to "@
        + decimal_text(min)
}

/// The violation, if any, of `min <= len(value) <= max` for the argument `field`.
pub open spec fn length_violation(field: Seq<char>, value: Seq<char>, min: int, max: int, r: Option<InputViolation>) -> bool {
    if value.len() < min {
        r is Some && r->0.field@ == field && r->0.message@ == too_short_message(value.len() as int, min)
    } else if value.len() > max {
        r is Some && r->0.field@ == field && r->0.message@ == too_long_message(value.len() as int, max)
    } else {
        r is None
    }
}

/// Checks that `value` has between `min` and `max` characters.
fn check_length(field: &str, value: &str, min: usize, max: usize) -> (r: Option<InputViolation>)
    ensures
        length_violation(field@, value@, min as int, max as int, r),
{
    let len = value.unicode_len();
    if len < min {
        let mut message = String::from_str("the string length is ");
        message.append(decimal_string_unsigned(len as u64).as_str());
        message.append(", must be greater than or equal to ");
        message.append(decimal_string_unsigned(min as u64).as_str());
        assert(message@ =~= too_short_message(len as int, min as int));
        Some(InputViolation { field: String::from_str(field), message })
    } else if len > max {
        let mut message = String::from_str("the string length is ");
        message.append(decimal_string_unsigned(len as u64).as_str());
        message.append(", must be less than or equal to ");
        message.append(decimal_string_unsigned(max as u64).as_str());
        assert(message@ =~= too_long_message(len as int, max as int));
        Some(InputViolation { field: String::from_str(field), message })
    } else {
        None
    }
}

/// Checks the arguments of `createDraft`: the title first, then the body.
pub fn check_draft_input(title: &str, body: &str) -> (r: Result<(), InputViolation>)
    ensures
        r is Ok <==> valid_title(title@) && valid_body(body@),
        !valid_title(title@) ==> r is Err && length_violation(
            "title"@,
            title@,
            TITLE_MIN_LENGTH as int,
            TITLE_MAX_LENGTH as int,
            Some(r->Err_0),
        ),
        valid_title(title@) && !valid_body(body@) ==> r is Err && length_violation(
            "body"@,
            body@,
            BODY_MIN_LENGTH as int,
            BODY_MAX_LENGTH as int,
            Some(r->Err_0),
        ),
{
    match check_length("title", title, TITLE_MIN_LENGTH, TITLE_MAX_LENGTH) {
        Some(v) => Err(v),
        None => match check_length("body", body, BODY_MIN_LENGTH, BODY_MAX_LENGTH) {
            Some(v) => Err(v),
            None => Ok(()),
        },
    }
}

/// Checks an `id` argument of `deleteDraft` or `publish`.
pub fn check_post_id(id: i64) -> (r: Result<(), InputViolation>)
    ensures
        r is Ok <==> valid_post_id(id as int),
        r is Err ==> r->Err_0.field@ == "id"@ && r->Err_0.message@ == below_minimum_message(id as int, 0),
{
    if id >= 0 {
        Ok(())
    } else {
        let mut message = String::from_str("the value is ");
        message.append(decimal_string(id).as_str());
        message.append(", must be greater than or equal to ");
        message.append(decimal_string(0).as_str());
        assert(message@ =~= below_minimum_message(id as int, 0));
        Err(InputViolation { field: String::from_str("id"), message })
    }
}

} // verus!
