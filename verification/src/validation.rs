//! Field rules for request payloads, and the record of the rules that a
//! payload breaks.

use vstd::prelude::*;

verus! {

/// One broken rule: the field, the rule's code, and the message for the user.
#[derive(Clone, Copy, Debug)]
pub struct FieldError {
    pub field: &'static str,
    pub code: &'static str,
    pub message: Option<&'static str>,
}

/// The rules that a payload breaks, in the order of its fields and, within a
/// field, in the order in which the rules are listed.
#[derive(Clone, Debug)]
pub struct ValidationErrors {
    pub errors: Vec<FieldError>,
}

impl View for ValidationErrors {
    type V = Seq<FieldError>;

    open spec fn view(&self) -> Seq<FieldError> {
        self.errors@
    }
}

impl ValidationErrors {
    pub fn new() -> (r: ValidationErrors)
        ensures
            r@ == Seq::<FieldError>::empty(),
    {
        ValidationErrors { errors: Vec::new() }
    }

    pub fn is_empty(&self) -> (r: bool)
        ensures
            r == (self@.len() == 0),
    {
        self.errors.len() == 0
    }

    /// Records one more broken rule.
    pub fn add(&mut self, field: &'static str, code: &'static str, message: Option<&'static str>)
        ensures
            final(self)@ == old(self)@.push(FieldError { field, code, message }),
    {
        self.errors.push(FieldError { field, code, message });
    }

    /// `Ok` where no rule was broken, the record otherwise.
    pub fn into_result(self) -> (r: Result<(), ValidationErrors>)
        ensures
            r is Ok <==> self@.len() == 0,
            r matches Err(e) ==> e@ == self@,
    {
        if self.errors.len() == 0 {
            Ok(())
        } else {
            Err(self)
        }
    }
}

/// The code of the length rule.
pub const CODE_LENGTH: &'static str = "length";

/// The code of the pattern rule.
pub const CODE_REGEX: &'static str = "regex";

/// The code of the email rule.
pub const CODE_EMAIL: &'static str = "email";

/// Usernames: three or more of `_`, digits and ASCII letters.
pub const USERNAME_PATTERN: &'static str = "^[_0-9a-zA-Z]{3,}$";

pub const MSG_NOT_EMPTY: &'static str = "fails validation - cannot be empty";

pub const MSG_USERNAME_LENGTH: &'static str = "fails validation - must be 3-20 characters long";

pub const MSG_USERNAME_SHORT_LENGTH: &'static str =
    "fails validation - must be 1-20 characters long";

pub const MSG_USERNAME_PATTERN: &'static str =
    "fails validation - is not only alphanumeric/underscore characters";

pub const MSG_EMAIL: &'static str = "fails validation - is not a valid email address";

pub const MSG_PASSWORD_LENGTH: &'static str = "fails validation - must be 8-72 characters long";

/// Whether a text of `len` characters is within the bounds, each of which may
/// be absent.
pub open spec fn length_within(len: nat, min: Option<u64>, max: Option<u64>) -> bool {
    &&& min matches Some(m) ==> len >= m
    &&& max matches Some(m) ==> len <= m
}

/// `validator::validate_length` on a string, with no `equal` bound: the
/// number of characters of `text` is at least `min` and at most `max`, where
/// they are given.
#[verifier::external_body]
fn validate_length(text: &str, min: Option<u64>, max: Option<u64>) -> (r: bool)
    ensures
        r == length_within(text@.len(), min, max),
{
    validator::validate_length(text, min, max, None)
}

/// What `validator::validate_email` says of a text: whether it has the shape
/// of an email address.
pub uninterp spec fn email_shaped(text: Seq<char>) -> bool;

/// `validator::validate_email`.
#[verifier::external_body]
fn validate_email(text: &str) -> (r: bool)
    ensures
        r == email_shaped(text@),
{
    validator::validate_email(text)
}

/// What searching `text` for the regular expression `pattern` gives: whether
/// there is a match, or `None` where `pattern` is no regular expression.
pub uninterp spec fn regex_search(pattern: Seq<char>, text: Seq<char>) -> Option<bool>;

/// `regex::Regex::new` followed by `Regex::is_match`.
#[verifier::external_body]
fn regex_is_match(pattern: &str, text: &str) -> (r: Option<bool>)
    ensures
        r == regex_search(pattern@, text@),
{
    match regex::Regex::new(pattern) {
        Ok(re) => Some(re.is_match(text)),
        Err(_) => None,
    }
}

/// Whether `text` matches `pattern`. A pattern that is no regular expression
/// matches nothing.
pub open spec fn matches_pattern(pattern: Seq<char>, text: Seq<char>) -> bool {
    regex_search(pattern, text) == Some(true)
}

/// Whether `text` matches the regular expression `pattern`.
pub fn is_match(pattern: &str, text: &str) -> (r: bool)
    ensures
        r == matches_pattern(pattern@, text@),
{
    match regex_is_match(pattern, text) {
        Some(found) => found,
        None => false,
    }
}

// ----------------------------------------------------------------------
// The rules, one function per kind of field
// ----------------------------------------------------------------------

/// The errors of a field that must not be empty.
pub open spec fn nonempty_violations(field: &'static str, text: Seq<char>) -> Seq<FieldError> {
    if text.len() >= 1 {
        Seq::empty()
    } else {
        seq![FieldError { field, code: CODE_LENGTH, message: Some(MSG_NOT_EMPTY) }]
    }
}

/// The errors of a list field that must not be empty.
pub open spec fn nonempty_list_violations(field: &'static str, len: nat) -> Seq<FieldError> {
    if len >= 1 {
        Seq::empty()
    } else {
        seq![FieldError { field, code: CODE_LENGTH, message: Some(MSG_NOT_EMPTY) }]
    }
}

/// The errors of a username field: its length must lie between `min` and 20
/// and it must match [`USERNAME_PATTERN`].
pub open spec fn username_violations(
    text: Seq<char>,
    min: u64,
    message: &'static str,
) -> Seq<FieldError> {
    let length = if length_within(text.len(), Some(min), Some(20u64)) {
        Seq::empty()
    } else {
        seq![FieldError { field: "username", code: CODE_LENGTH, message: Some(message) }]
    };
    let pattern = if matches_pattern(USERNAME_PATTERN@, text) {
        Seq::empty()
    } else {
        seq![FieldError { field: "username", code: CODE_REGEX, message: Some(MSG_USERNAME_PATTERN) }]
    };
    length + pattern
}

/// The errors of an email field.
pub open spec fn email_violations(text: Seq<char>, message: Option<&'static str>) -> Seq<
    FieldError,
> {
    if email_shaped(text) {
        Seq::empty()
    } else {
        seq![FieldError { field: "email", code: CODE_EMAIL, message }]
    }
}

/// The errors of a password field: between 8 and 72 characters.
pub open spec fn password_violations(text: Seq<char>) -> Seq<FieldError> {
    if length_within(text.len(), Some(8u64), Some(72u64)) {
        Seq::empty()
    } else {
        seq![FieldError { field: "password", code: CODE_LENGTH, message: Some(MSG_PASSWORD_LENGTH) }]
    }
}

/// Checks a field that must not be empty.
pub fn check_nonempty(errors: &mut ValidationErrors, field: &'static str, text: &str)
    ensures
        final(errors)@ == old(errors)@ + nonempty_violations(field, text@),
{
    if !validate_length(text, Some(1), None) {
        errors.add(field, CODE_LENGTH, Some(MSG_NOT_EMPTY));
    }
}

/// Checks a list field that must not be empty.
pub fn check_nonempty_list(errors: &mut ValidationErrors, field: &'static str, len: usize)
    ensures
        final(errors)@ == old(errors)@ + nonempty_list_violations(field, len as nat),
{
    if len < 1 {
        errors.add(field, CODE_LENGTH, Some(MSG_NOT_EMPTY));
    }
}

/// Checks a username field.
pub fn check_username(
    errors: &mut ValidationErrors,
    text: &str,
    min: u64,
    message: &'static str,
)
    ensures
        final(errors)@ == old(errors)@ + username_violations(text@, min, message),
{
    if !validate_length(text, Some(min), Some(20)) {
        errors.add("username", CODE_LENGTH, Some(message));
    }
    if !is_match(USERNAME_PATTERN, text) {
        errors.add("username", CODE_REGEX, Some(MSG_USERNAME_PATTERN));
    }
}

/// Checks an email field.
pub fn check_email(errors: &mut ValidationErrors, text: &str, message: Option<&'static str>)
    ensures
        final(errors)@ == old(errors)@ + email_violations(text@, message),
{
    if !validate_email(text) {
        errors.add("email", CODE_EMAIL, message);
    }
}

/// Checks a password field.
pub fn check_password(errors: &mut ValidationErrors, text: &str)
    ensures
        final(errors)@ == old(errors)@ + password_violations(text@),
{
    if !validate_length(text, Some(8), Some(72)) {
        errors.add("password", CODE_LENGTH, Some(MSG_PASSWORD_LENGTH));
    }
}

} // verus!
