//! Users: the stored row and the payloads of the user routes.

use crate::model::{text_of, UserRow};
use crate::validation::{
    check_email, check_nonempty, check_password, check_username, email_violations,
    nonempty_violations, password_violations, username_violations, FieldError,
    ValidationErrors, MSG_EMAIL, MSG_USERNAME_LENGTH, MSG_USERNAME_SHORT_LENGTH,
};
use vstd::prelude::*;

verus! {

/// Copies an optional string.
pub fn clone_text(o: &Option<String>) -> (r: Option<String>)
    ensures
        r == *o,
{
    match o {
        Some(s) => Some(s.clone()),
        None => None,
    }
}

/// A stored user. `password` holds the hash, never the password itself.
#[derive(Debug)]
pub struct User {
    pub id: u128,
    pub username: String,
    pub email: String,
    pub password: String,
    pub bio: Option<String>,
    pub created_at: i64,
    pub updated_at: i64,
}

impl View for User {
    type V = UserRow;

    open spec fn view(&self) -> UserRow {
        UserRow {
            id: self.id,
            username: self.username@,
            email: self.email@,
            password: self.password@,
            bio: text_of(self.bio),
            created_at: self.created_at,
            updated_at: self.updated_at,
        }
    }
}

impl Clone for User {
    fn clone(&self) -> (r: Self)
        ensures
            r == *self,
    {
        User {
            id: self.id,
            username: self.username.clone(),
            email: self.email.clone(),
            password: self.password.clone(),
            bio: clone_text(&self.bio),
            created_at: self.created_at,
            updated_at: self.updated_at,
        }
    }
}

/// The envelope of the user routes: the payload sits under the key `user`.
#[derive(Debug)]
pub struct In<U> {
    pub user: U,
}

/// The payload of a registration.
#[derive(Debug)]
pub struct UserRegister {
    pub username: String,
    pub email: String,
    pub password: String,
}

impl UserRegister {
    /// The rules that the payload breaks.
    pub open spec fn violations(&self) -> Seq<FieldError> {
        username_violations(self.username@, 3, MSG_USERNAME_LENGTH) + email_violations(
            self.email@,
            Some(MSG_EMAIL),
        ) + password_violations(self.password@)
    }

    pub fn validate(&self) -> (r: Result<(), ValidationErrors>)
        ensures
            r is Ok <==> self.violations().len() == 0,
            r matches Err(e) ==> e@ == self.violations(),
    {
        let mut errors = ValidationErrors::new();
        check_username(&mut errors, self.username.as_str(), 3, MSG_USERNAME_LENGTH);
        check_email(&mut errors, self.email.as_str(), Some(MSG_EMAIL));
        check_password(&mut errors, self.password.as_str());
        errors.into_result()
    }
}

/// The payload of a login.
#[derive(Debug)]
pub struct UserLogin {
    pub email: String,
    pub password: String,
}

impl UserLogin {
    /// The rules that the payload breaks.
    pub open spec fn violations(&self) -> Seq<FieldError> {
        email_violations(self.email@, Some(MSG_EMAIL)) + password_violations(self.password@)
    }

    pub fn validate(&self) -> (r: Result<(), ValidationErrors>)
        ensures
            r is Ok <==> self.violations().len() == 0,
            r matches Err(e) ==> e@ == self.violations(),
    {
        let mut errors = ValidationErrors::new();
        check_email(&mut errors, self.email.as_str(), Some(MSG_EMAIL));
        check_password(&mut errors, self.password.as_str());
        errors.into_result()
    }
}

/// The payload of a user update. An absent field is not checked.
#[derive(Debug)]
pub struct UserUpdate {
    pub username: Option<String>,
    pub email: Option<String>,
    pub password: Option<String>,
    pub bio: Option<String>,
}

impl UserUpdate {
    /// The rules that the payload breaks.
    pub open spec fn violations(&self) -> Seq<FieldError> {
        (match self.username {
            Some(s) => username_violations(s@, 1, MSG_USERNAME_SHORT_LENGTH),
            None => Seq::empty(),
        }) + (match self.email {
            Some(s) => email_violations(s@, None),
            None => Seq::empty(),
        }) + (match self.password {
            Some(s) => password_violations(s@),
            None => Seq::empty(),
        }) + (match self.bio {
            Some(s) => nonempty_violations("bio", s@),
            None => Seq::empty(),
        })
    }

    pub fn validate(&self) -> (r: Result<(), ValidationErrors>)
        ensures
            r is Ok <==> self.violations().len() == 0,
            r matches Err(e) ==> e@ == self.violations(),
    {
        let mut errors = ValidationErrors::new();
        if let Some(s) = &self.username {
            check_username(&mut errors, s.as_str(), 1, MSG_USERNAME_SHORT_LENGTH);
        }
        if let Some(s) = &self.email {
            check_email(&mut errors, s.as_str(), None);
        }
        if let Some(s) = &self.password {
            check_password(&mut errors, s.as_str());
        }
        if let Some(s) = &self.bio {
            check_nonempty(&mut errors, "bio", s.as_str());
        }
        errors.into_result()
    }
}

/// The payload of a user deletion.
#[derive(Debug)]
pub struct UserDelete {
    pub username: String,
}

impl UserDelete {
    /// The rules that the payload breaks.
    pub open spec fn violations(&self) -> Seq<FieldError> {
        username_violations(self.username@, 1, MSG_USERNAME_SHORT_LENGTH)
    }

    pub fn validate(&self) -> (r: Result<(), ValidationErrors>)
        ensures
            r is Ok <==> self.violations().len() == 0,
            r matches Err(e) ==> e@ == self.violations(),
    {
        let mut errors = ValidationErrors::new();
        check_username(&mut errors, self.username.as_str(), 1, MSG_USERNAME_SHORT_LENGTH);
        errors.into_result()
    }
}

} // verus!
