//! The failures that a route can end in, what they say, and the HTTP status
//! that each maps to.

use crate::validation::{FieldError, ValidationErrors};
use vstd::prelude::*;
use vstd::std_specs::convert::FromSpecImpl;

verus! {

/// What a reply says besides its status. In JSON, `Message(m)` is
/// `{"message": m}` and `Failure(m)` is `{"error": m}`. `Invalid` lists, per
/// field, the code and the message of each broken rule, under
/// `{"error": "Validation failed", "details": ..}`. `Errors` lists, per field,
/// the messages only, under `{"errors": ..}`.
#[derive(Debug)]
pub enum Details {
    Message(&'static str),
    Failure(&'static str),
    Invalid(ValidationErrors),
    Errors(ValidationErrors),
}

/// A failed request.
#[derive(Debug)]
pub enum Error {
    /// 400: the payload breaks a field rule.
    BadRequest(Details),
    /// 401: the credentials are wrong.
    Unauthorized(Details),
    /// 403: the acting user is known but not entitled.
    Forbidden(Details),
    /// 404: a row that the request names does not exist.
    NotFound(Details),
    /// 422: the request is well-formed but makes no sense.
    UnprocessableEntity(Details),
    /// 500: the store refused a write, or something else went wrong of which
    /// the user is told nothing.
    InternalServerError,
}

pub const STATUS_OK: u16 = 200;

pub const STATUS_CREATED: u16 = 201;

pub const STATUS_ACCEPTED: u16 = 202;

pub const STATUS_BAD_REQUEST: u16 = 400;

pub const STATUS_UNAUTHORIZED: u16 = 401;

pub const STATUS_FORBIDDEN: u16 = 403;

pub const STATUS_NOT_FOUND: u16 = 404;

pub const STATUS_UNPROCESSABLE_ENTITY: u16 = 422;

pub const STATUS_INTERNAL_SERVER_ERROR: u16 = 500;

pub const MSG_CREATED: &'static str = "Record created successfully";

pub const MSG_UPDATED: &'static str = "Record updated successfully";

pub const MSG_DELETED: &'static str = "Record deleted successfully";

pub const MSG_NO_SUCH_ID: &'static str = "Record not found for the provided id";

pub const MSG_NO_SUCH_USERNAME: &'static str = "Record not found for the provided username";

pub const MSG_NO_SUCH_EMAIL: &'static str = "Record not found for the provided email";

pub const MSG_NO_SUCH_SLUG: &'static str = "Record not found for the provided slug";

pub const MSG_NOT_THE_AUTHOR: &'static str = "user is not the author of article in question";

pub const MSG_NOT_THE_COMMENTER: &'static str = "user is not the author of comment in question";

pub const MSG_SELF_FOLLOW: &'static str = "You cannot follow yourself";

pub const MSG_AUTHENTICATED: &'static str = "Authentication successful";

pub const MSG_NOT_AUTHENTICATED: &'static str = "Authentication failed";

pub const MSG_INTERNAL: &'static str = "Internal Server Error";

impl Error {
    /// The HTTP status of the failure.
    pub open spec fn status(self) -> u16 {
        match self {
            Error::BadRequest(_) => STATUS_BAD_REQUEST,
            Error::Unauthorized(_) => STATUS_UNAUTHORIZED,
            Error::Forbidden(_) => STATUS_FORBIDDEN,
            Error::NotFound(_) => STATUS_NOT_FOUND,
            Error::UnprocessableEntity(_) => STATUS_UNPROCESSABLE_ENTITY,
            Error::InternalServerError => STATUS_INTERNAL_SERVER_ERROR,
        }
    }

    pub fn status_code(&self) -> (r: u16)
        ensures
            r == self.status(),
    {
        match self {
            Error::BadRequest(_) => STATUS_BAD_REQUEST,
            Error::Unauthorized(_) => STATUS_UNAUTHORIZED,
            Error::Forbidden(_) => STATUS_FORBIDDEN,
            Error::NotFound(_) => STATUS_NOT_FOUND,
            Error::UnprocessableEntity(_) => STATUS_UNPROCESSABLE_ENTITY,
            Error::InternalServerError => STATUS_INTERNAL_SERVER_ERROR,
        }
    }

    /// The failure is a 400 that lists exactly these broken rules.
    pub open spec fn is_invalid(self, violations: Seq<FieldError>) -> bool {
        self matches Error::BadRequest(Details::Invalid(v)) && v@ == violations
    }

    /// The failure is a 404 with this message.
    pub open spec fn is_not_found(self, message: &'static str) -> bool {
        self matches Error::NotFound(Details::Message(m)) && m == message
    }

    /// The failure is a 403 with this message.
    pub open spec fn is_forbidden(self, message: &'static str) -> bool {
        self matches Error::Forbidden(Details::Failure(m)) && m == message
    }

    /// The failure is a 422 with this message.
    pub open spec fn is_unprocessable(self, message: &'static str) -> bool {
        self matches Error::UnprocessableEntity(Details::Failure(m)) && m == message
    }

    /// The failure is a 401 with this message.
    pub open spec fn is_unauthorized(self, message: &'static str) -> bool {
        self matches Error::Unauthorized(Details::Failure(m)) && m == message
    }

    /// The failure is the 500 that says nothing.
    pub open spec fn is_internal(self) -> bool {
        self is InternalServerError
    }

    /// What the failure tells the user.
    pub fn details(&self) -> (r: Option<&Details>)
        ensures
            r is None <==> self is InternalServerError,
            match *self {
                Error::BadRequest(d) => r == Some(&d),
                Error::Unauthorized(d) => r == Some(&d),
                Error::Forbidden(d) => r == Some(&d),
                Error::NotFound(d) => r == Some(&d),
                Error::UnprocessableEntity(d) => r == Some(&d),
                Error::InternalServerError => r is None,
            },
    {
        match self {
            Error::BadRequest(d) => Some(d),
            Error::Unauthorized(d) => Some(d),
            Error::Forbidden(d) => Some(d),
            Error::NotFound(d) => Some(d),
            Error::UnprocessableEntity(d) => Some(d),
            Error::InternalServerError => None,
        }
    }
}

impl From<ValidationErrors> for Error {
    /// Broken field rules as a 422 that lists, per field, the messages.
    fn from(errors: ValidationErrors) -> (r: Error) {
        Error::UnprocessableEntity(Details::Errors(errors))
    }
}

impl FromSpecImpl<ValidationErrors> for Error {
    open spec fn obeys_from_spec() -> bool {
        true
    }

    open spec fn from_spec(errors: ValidationErrors) -> Error {
        Error::UnprocessableEntity(Details::Errors(errors))
    }
}

/// A successful reply: the HTTP status and the body.
#[derive(Debug)]
pub struct Reply<T> {
    pub status: u16,
    pub body: T,
}

impl Reply<Details> {
    /// The reply has this status and says `{"message": message}`.
    pub open spec fn is_message(self, status: u16, message: &'static str) -> bool {
        self.status == status && (self.body matches Details::Message(m) && m == message)
    }

    /// A reply that says `{"message": message}`.
    pub fn message(status: u16, message: &'static str) -> (r: Reply<Details>)
        ensures
            r.is_message(status, message),
    {
        Reply { status, body: Details::Message(message) }
    }
}

} // verus!
