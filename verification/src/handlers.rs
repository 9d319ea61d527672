//! Failures that are shown to the user, and the handlers that end in them.

use vstd::prelude::*;

verus! {

/// A failure that the user may see.
#[derive(Debug, Clone, Copy, PartialEq, Eq, Structural)]
pub enum UserError {
    InternalError,
    InvalidInput,
}

impl UserError {
    /// The HTTP status of the failure.
    pub open spec fn status(self) -> u16 {
        match self {
            UserError::InternalError => 500,
            UserError::InvalidInput => 400,
        }
    }

    pub fn status_code(&self) -> (r: u16)
        ensures
            r == self.status(),
    {
        match self {
            UserError::InternalError => 500,
            UserError::InvalidInput => 400,
        }
    }

    /// What the failure tells the user.
    pub fn message(&self) -> (r: &'static str)
        ensures
            *self == UserError::InternalError ==> r
                == "An internal error occurred. Please try again later.",
            *self == UserError::InvalidInput ==> r == "Invalid input provided.",
    {
        match self {
            UserError::InternalError => "An internal error occurred. Please try again later.",
            UserError::InvalidInput => "Invalid input provided.",
        }
    }
}

/// The step that always fails.
pub fn do_thing_that_fails() -> (r: Result<(), UserError>)
    ensures
        r == Err::<(), UserError>(UserError::InternalError),
{
    Err(UserError::InternalError)
}

/// Processes a value: an empty value is invalid input, and any other value
/// runs into the step that always fails.
pub fn process(value: &str) -> (r: Result<&'static str, UserError>)
    ensures
        value@.len() == 0 ==> r == Err::<&'static str, UserError>(UserError::InvalidInput),
        value@.len() > 0 ==> r == Err::<&'static str, UserError>(UserError::InternalError),
{
    if value.is_empty() {
        return Err(UserError::InvalidInput);
    }
    match do_thing_that_fails() {
        Ok(()) => Ok("success!"),
        Err(_) => Err(UserError::InternalError),
    }
}

/// Whether the request is valid: every request is.
pub fn is_valid() -> (r: bool)
    ensures
        r,
{
    true
}

/// The reply to a request with or without a content type: a 200 with one, a
/// 400 without.
pub fn index(has_content_type: bool) -> (r: u16)
    ensures
        r == if has_content_type {
            200u16
        } else {
            400u16
        },
{
    if has_content_type {
        200
    } else {
        400
    }
}

} // verus!
