//! Profiles: the payloads and bodies of the profile routes.

use crate::model::{text_of, ProfileDoc};
use crate::schemas::users_schema::clone_text;
use crate::validation::{
    check_email, check_username, email_violations, username_violations, FieldError,
    ValidationErrors, MSG_EMAIL, MSG_USERNAME_LENGTH,
};
use vstd::prelude::*;

verus! {

/// The body of a profile response.
#[derive(Debug)]
pub struct ProfileResponse {
    pub profile: ProfileResponseInner,
}

/// A user's public profile, with whether the viewer follows the user.
#[derive(Debug)]
pub struct ProfileResponseInner {
    pub username: String,
    pub bio: Option<String>,
    pub following: bool,
}

impl View for ProfileResponseInner {
    type V = ProfileDoc;

    open spec fn view(&self) -> ProfileDoc {
        ProfileDoc { username: self.username@, bio: text_of(self.bio), following: self.following }
    }
}

impl Clone for ProfileResponseInner {
    fn clone(&self) -> (r: Self)
        ensures
            r == *self,
    {
        ProfileResponseInner {
            username: self.username.clone(),
            bio: clone_text(&self.bio),
            following: self.following,
        }
    }
}

impl View for ProfileResponse {
    type V = ProfileDoc;

    open spec fn view(&self) -> ProfileDoc {
        self.profile@
    }
}

/// The user that a profile route is about, by username.
#[derive(Debug)]
pub struct Profile {
    pub username: String,
}

impl Profile {
    /// The rules that the payload breaks.
    pub open spec fn violations(&self) -> Seq<FieldError> {
        username_violations(self.username@, 3, MSG_USERNAME_LENGTH)
    }

    pub fn validate(&self) -> (r: Result<(), ValidationErrors>)
        ensures
            r is Ok <==> self.violations().len() == 0,
            r matches Err(e) ==> e@ == self.violations(),
    {
        let mut errors = ValidationErrors::new();
        check_username(&mut errors, self.username.as_str(), 3, MSG_USERNAME_LENGTH);
        errors.into_result()
    }
}

/// The user that follows or unfollows, by email.
#[derive(Debug)]
pub struct ProfileFollow {
    pub email: String,
}

impl ProfileFollow {
    /// The rules that the payload breaks.
    pub open spec fn violations(&self) -> Seq<FieldError> {
        email_violations(self.email@, Some(MSG_EMAIL))
    }

    pub fn validate(&self) -> (r: Result<(), ValidationErrors>)
        ensures
            r is Ok <==> self.violations().len() == 0,
            r matches Err(e) ==> e@ == self.violations(),
    {
        let mut errors = ValidationErrors::new();
        check_email(&mut errors, self.email.as_str(), Some(MSG_EMAIL));
        errors.into_result()
    }
}

} // verus!
