//! The user routes: registering, logging in, updating and deleting a user.

use crate::errors::{
    Details, Error, Reply, MSG_AUTHENTICATED, MSG_CREATED, MSG_DELETED, MSG_NOT_AUTHENTICATED,
    MSG_NO_SUCH_EMAIL, MSG_NO_SUCH_USERNAME, MSG_UPDATED, STATUS_CREATED, STATUS_OK,
};
use crate::model::{text_of, Tables, UserRow};
use crate::schemas::users_schema::{In, User, UserDelete, UserLogin, UserRegister, UserUpdate};
use crate::slug::new_v4;
use crate::store::Store;
use crate::utils::{hash_password, password_check, validation_errors_response, verify_password};
use vstd::prelude::*;
use vstd::utf8::encode_utf8;

verus! {

/// The row of a new user: no bio, and both moments are `now`.
pub open spec fn new_user_row(id: u128, hash: Seq<char>, form: UserRegister, now: i64) -> UserRow {
    UserRow {
        id,
        username: form.username@,
        email: form.email@,
        password: hash,
        bio: None,
        created_at: now,
        updated_at: now,
    }
}

/// What registering a user under the id `id` with the password hash `hash`
/// does to the store and replies.
///
/// A payload that breaks a field rule is a 400. An id, a username or an
/// email that is taken is a 500. In both cases nothing changes. Otherwise the
/// user is stored and the reply is a 201.
pub open spec fn register_outcome(
    before: Tables,
    id: u128,
    hash: Seq<char>,
    form: UserRegister,
    now: i64,
    after: Tables,
    r: Result<Reply<Details>, Error>,
) -> bool {
    if form.violations().len() > 0 {
        after == before && (r matches Err(e) && e.is_invalid(form.violations()))
    } else if !before.admits_user(new_user_row(id, hash, form, now)) {
        after == before && (r matches Err(e) && e.is_internal())
    } else {
        &&& after == before.insert_user(new_user_row(id, hash, form, now))
        &&& (r matches Ok(reply) && reply.is_message(STATUS_CREATED, MSG_CREATED))
    }
}

/// Registers a user under the id `id` with the password hash
/// `password_hash`.
pub fn register_with(
    store: &mut Store,
    id: u128,
    password_hash: String,
    form: In<UserRegister>,
    now: i64,
) -> (r: Result<Reply<Details>, Error>)
    requires
        old(store).wf(),
    ensures
        final(store).wf(),
        register_outcome(old(store)@, id, password_hash@, form.user, now, final(store)@, r),
{
    let register_user = form.user;
    if let Err(validation_errors) = register_user.validate() {
        return Err(validation_errors_response(validation_errors));
    }
    let row = User {
        id,
        username: register_user.username,
        email: register_user.email,
        password: password_hash,
        bio: None,
        created_at: now,
        updated_at: now,
    };
    if store.insert_user(row) {
        Ok(Reply::message(STATUS_CREATED, MSG_CREATED))
    } else {
        Err(Error::InternalServerError)
    }
}

/// Registers a user under a fresh random id, with a hash of the password
/// under a fresh random salt.
///
/// A payload that breaks a field rule is a 400 and a failure of the hasher is
/// a 500, and nothing changes. Otherwise this is what [`register_with`] does
/// for the id that was drawn and the hash that was made, which verifies
/// against the password.
pub fn register(store: &mut Store, form: In<UserRegister>, now: i64) -> (r: Result<
    Reply<Details>,
    Error,
>)
    requires
        old(store).wf(),
    ensures
        final(store).wf(),
        form.user.violations().len() > 0 ==> final(store)@ == old(store)@ && (r matches Err(e)
            && e.is_invalid(form.user.violations())),
        form.user.violations().len() == 0 ==> (final(store)@ == old(store)@ && (r matches Err(e)
            && e.is_internal())) || (exists|id: u128, hash: Seq<char>|
            password_check(encode_utf8(form.user.password@), hash) == Some(true)
                && register_outcome(old(store)@, id, hash, form.user, now, final(store)@, r)),
{
    if let Err(validation_errors) = form.user.validate() {
        return Err(validation_errors_response(validation_errors));
    }
    let password_hash = match hash_password(form.user.password.as_str().as_bytes()) {
        Ok(password_hash) => password_hash,
        Err(e) => {
            return Err(e);
        },
    };
    let id = new_v4();
    let ghost hash = password_hash@;
    let r = register_with(store, id, password_hash, form, now);
    assert(register_outcome(old(store)@, id, hash, form.user, now, store@, r));
    r
}

/// What logging in replies.
///
/// A payload that breaks a field rule is a 400. An unknown email is a 404. A
/// password that the stored hash is not a hash of is a 401. Otherwise the
/// reply is a 201.
pub open spec fn login_outcome(
    tables: Tables,
    form: UserLogin,
    r: Result<Reply<Details>, Error>,
) -> bool {
    if form.violations().len() > 0 {
        r matches Err(e) && e.is_invalid(form.violations())
    } else {
        match tables.user_with_email(form.email@) {
            None => r matches Err(e) && e.is_not_found(MSG_NO_SUCH_EMAIL),
            Some(user) => if password_check(encode_utf8(form.password@), user.password) == Some(
                true,
            ) {
                r matches Ok(reply) && reply.is_message(STATUS_CREATED, MSG_AUTHENTICATED)
            } else {
                r matches Err(e) && e.is_unauthorized(MSG_NOT_AUTHENTICATED)
            },
        }
    }
}

/// Logs a user in.
pub fn login(store: &Store, form: &In<UserLogin>) -> (r: Result<Reply<Details>, Error>)
    ensures
        login_outcome(store@, form.user, r),
{
    let login_user = &form.user;
    if let Err(validation_errors) = login_user.validate() {
        return Err(validation_errors_response(validation_errors));
    }
    let user = match store.user_by_email(&login_user.email) {
        Some(user) => user,
        None => {
            return Err(Error::NotFound(Details::Message(MSG_NO_SUCH_EMAIL)));
        },
    };
    if verify_password(login_user.password.as_str().as_bytes(), user.password.as_str()) {
        Ok(Reply::message(STATUS_CREATED, MSG_AUTHENTICATED))
    } else {
        Err(Error::Unauthorized(Details::Failure(MSG_NOT_AUTHENTICATED)))
    }
}

/// The user row after an update: the email and the bio that the payload
/// carries, the new password hash where there is one, and `now` as the
/// moment of the update. Everything else stays.
pub open spec fn updated_user(
    user: UserRow,
    form: UserUpdate,
    hash: Option<Seq<char>>,
    now: i64,
) -> UserRow {
    UserRow {
        email: match form.email {
            Some(email) => email@,
            None => user.email,
        },
        password: match hash {
            Some(hash) => hash,
            None => user.password,
        },
        bio: match form.bio {
            Some(bio) => Some(bio@),
            None => user.bio,
        },
        updated_at: now,
        ..user
    }
}

/// What updating a user, with the new password hash `hash` if the password
/// changes, does to the store and replies.
///
/// A payload that breaks a field rule is a 400. A payload without a
/// username, or with an unknown one, is a 404. An email that another user
/// has is a 500. In each of these cases nothing changes. Otherwise the row is
/// rewritten and the reply is a 201.
pub open spec fn update_outcome(
    before: Tables,
    form: UserUpdate,
    hash: Option<Seq<char>>,
    now: i64,
    after: Tables,
    r: Result<Reply<Details>, Error>,
) -> bool {
    if form.violations().len() > 0 {
        after == before && (r matches Err(e) && e.is_invalid(form.violations()))
    } else {
        match form.username {
            None => after == before && (r matches Err(e) && e.is_not_found(
                MSG_NO_SUCH_USERNAME,
            )),
            Some(username) => match before.user_named(username@) {
                None => after == before && (r matches Err(e) && e.is_not_found(
                    MSG_NO_SUCH_USERNAME,
                )),
                Some(user) => if !before.admits_user_update(
                    updated_user(user, form, hash, now),
                ) {
                    after == before && (r matches Err(e) && e.is_internal())
                } else {
                    &&& after == before.update_user(updated_user(user, form, hash, now))
                    &&& (r matches Ok(reply) && reply.is_message(STATUS_CREATED, MSG_UPDATED))
                },
            },
        }
    }
}

/// Updates a user, with the new password hash `password_hash` if the
/// password changes.
pub fn update_with(
    store: &mut Store,
    password_hash: Option<String>,
    form: In<UserUpdate>,
    now: i64,
) -> (r: Result<Reply<Details>, Error>)
    requires
        old(store).wf(),
    ensures
        final(store).wf(),
        update_outcome(old(store)@, form.user, text_of(password_hash), now, final(store)@, r),
{
    let update_user = form.user;
    if let Err(validation_errors) = update_user.validate() {
        return Err(validation_errors_response(validation_errors));
    }
    let username = match &update_user.username {
        Some(username) => username,
        None => {
            return Err(Error::NotFound(Details::Message(MSG_NO_SUCH_USERNAME)));
        },
    };
    let user = match store.user_by_username(username) {
        Some(user) => user,
        None => {
            return Err(Error::NotFound(Details::Message(MSG_NO_SUCH_USERNAME)));
        },
    };
    let row = User {
        id: user.id,
        username: user.username,
        email: match update_user.email {
            Some(email) => email,
            None => user.email,
        },
        password: match password_hash {
            Some(hash) => hash,
            None => user.password,
        },
        bio: match update_user.bio {
            Some(bio) => Some(bio),
            None => user.bio,
        },
        created_at: user.created_at,
        updated_at: now,
    };
    if store.update_user(row) {
        Ok(Reply::message(STATUS_CREATED, MSG_UPDATED))
    } else {
        Err(Error::InternalServerError)
    }
}

/// Updates a user. Where the payload carries a password, its hash is made
/// under a fresh random salt.
///
/// A payload that breaks a field rule is a 400 and a failure of the hasher is
/// a 500, and nothing changes. Otherwise this is what [`update_with`] does
/// for the hash that was made, which verifies against the password, or for no
/// hash where the payload carries no password.
pub fn update(store: &mut Store, form: In<UserUpdate>, now: i64) -> (r: Result<
    Reply<Details>,
    Error,
>)
    requires
        old(store).wf(),
    ensures
        final(store).wf(),
        form.user.violations().len() > 0 ==> final(store)@ == old(store)@ && (r matches Err(e)
            && e.is_invalid(form.user.violations())),
        form.user.violations().len() == 0 ==> (final(store)@ == old(store)@ && (r matches Err(e)
            && e.is_internal())) || (exists|hash: Option<Seq<char>>|
            {
                &&& hash is Some <==> form.user.password is Some
                &&& hash matches Some(h) ==> password_check(
                    encode_utf8(form.user.password->0@),
                    h,
                ) == Some(true)
                &&& update_outcome(old(store)@, form.user, hash, now, final(store)@, r)
            }),
{
    if let Err(validation_errors) = form.user.validate() {
        return Err(validation_errors_response(validation_errors));
    }
    let hashed_password = match &form.user.password {
        Some(password) => match hash_password(password.as_str().as_bytes()) {
            Ok(password_hash) => Some(password_hash),
            Err(e) => {
                return Err(e);
            },
        },
        None => None,
    };
    let ghost hash = text_of(hashed_password);
    let r = update_with(store, hashed_password, form, now);
    assert(update_outcome(old(store)@, form.user, hash, now, store@, r));
    r
}

/// What deleting a user does to the store and replies.
///
/// A payload that breaks a field rule is a 400 and an unknown username is a
/// 404, and nothing changes. Otherwise the user goes and the reply is a 200.
pub open spec fn delete_outcome(
    before: Tables,
    form: UserDelete,
    after: Tables,
    r: Result<Reply<Details>, Error>,
) -> bool {
    if form.violations().len() > 0 {
        after == before && (r matches Err(e) && e.is_invalid(form.violations()))
    } else {
        match before.user_named(form.username@) {
            None => after == before && (r matches Err(e) && e.is_not_found(
                MSG_NO_SUCH_USERNAME,
            )),
            Some(user) => {
                &&& after == before.delete_user(user.id)
                &&& (r matches Ok(reply) && reply.is_message(STATUS_OK, MSG_DELETED))
            },
        }
    }
}

/// Deletes a user.
pub fn delete(store: &mut Store, form: &In<UserDelete>) -> (r: Result<Reply<Details>, Error>)
    requires
        old(store).wf(),
    ensures
        final(store).wf(),
        delete_outcome(old(store)@, form.user, final(store)@, r),
{
    let user_info = &form.user;
    if let Err(validation_errors) = user_info.validate() {
        return Err(validation_errors_response(validation_errors));
    }
    let user = match store.user_by_username(&user_info.username) {
        Some(user) => user,
        None => {
            return Err(Error::NotFound(Details::Message(MSG_NO_SUCH_USERNAME)));
        },
    };
    proof {
        old(store)@.lemma_user_named_has_id(user_info.username@);
    }
    if store.delete_user(user.id) {
        Ok(Reply::message(STATUS_OK, MSG_DELETED))
    } else {
        Err(Error::NotFound(Details::Message(MSG_NO_SUCH_USERNAME)))
    }
}

} // verus!
