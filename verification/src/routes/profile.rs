//! The profile routes: reading a profile, following and unfollowing.

use crate::errors::{
    Details, Error, Reply, MSG_NO_SUCH_EMAIL, MSG_NO_SUCH_ID, MSG_NO_SUCH_USERNAME,
    MSG_SELF_FOLLOW, STATUS_ACCEPTED, STATUS_CREATED, STATUS_OK,
};
use crate::model::{FollowerRow, ProfileDoc, Tables};
use crate::routes::articles::profile_of_user;
use crate::schemas::articles_schema::Follower;
use crate::schemas::profile_schema::{Profile, ProfileFollow, ProfileResponse};
use crate::store::Store;
use crate::utils::validation_errors_response;
use vstd::prelude::*;

verus! {

/// Returns the profile of a user as `viewer` sees it. A username that breaks
/// a field rule is a 400; an unknown user is a 404.
pub fn get_profile(store: &Store, profile: &Profile, viewer: Option<u128>) -> (r: Result<
    Reply<ProfileResponse>,
    Error,
>)
    ensures
        if profile.violations().len() > 0 {
            r matches Err(e) && e.is_invalid(profile.violations())
        } else {
            match store@.profile_of(profile.username@, viewer) {
                Some(doc) => r matches Ok(reply) && reply.status == STATUS_OK && reply.body@
                    == doc,
                None => r matches Err(e) && e.is_not_found(MSG_NO_SUCH_USERNAME),
            }
        },
{
    if let Err(validation_errors) = profile.validate() {
        return Err(validation_errors_response(validation_errors));
    }
    let user = match store.user_by_username(&profile.username) {
        Some(user) => user,
        None => {
            return Err(Error::NotFound(Details::Message(MSG_NO_SUCH_USERNAME)));
        },
    };
    let following = match viewer {
        Some(viewer) => store.follows(user.id, viewer),
        None => false,
    };
    Ok(
        Reply {
            status: STATUS_OK,
            body: ProfileResponse { profile: profile_of_user(&user, following) },
        },
    )
}

/// The follow edge from `follower_id` to `user_id`, as it is stored at `now`.
pub open spec fn follow_edge(user_id: u128, follower_id: u128, now: i64) -> FollowerRow {
    FollowerRow { user_id, follower_id, created_at: now, updated_at: now }
}

/// What following the user `target` as the user `acting` does to the store
/// and replies.
///
/// An unknown target is a 404. A user who follows themself is a 422. An
/// unknown acting user is a 404. In each of these cases nothing changes.
/// Otherwise the edge is there afterwards, once, whether or not it was there
/// before, and the reply is a 201 with the profile of the target, followed.
pub open spec fn follow_outcome(
    before: Tables,
    target: Seq<char>,
    acting: u128,
    now: i64,
    after: Tables,
    r: Result<Reply<ProfileResponse>, Error>,
) -> bool {
    match before.user_named(target) {
        None => after == before && (r matches Err(e) && e.is_not_found(MSG_NO_SUCH_USERNAME)),
        Some(user) => if user.id == acting {
            after == before && (r matches Err(e) && e.is_unprocessable(MSG_SELF_FOLLOW))
        } else if before.user_with_id(acting) is None {
            after == before && (r matches Err(e) && e.is_not_found(MSG_NO_SUCH_ID))
        } else {
            &&& after == before.add_follower(follow_edge(user.id, acting, now))
            &&& (r matches Ok(reply) && reply.status == STATUS_CREATED && reply.body@
                == ProfileDoc { username: user.username, bio: user.bio, following: true })
        },
    }
}

/// Makes the user `acting_user_id` follow the user `target_username`.
pub fn follow(store: &mut Store, target_username: &String, acting_user_id: u128, now: i64) -> (r:
    Result<Reply<ProfileResponse>, Error>)
    requires
        old(store).wf(),
    ensures
        final(store).wf(),
        follow_outcome(old(store)@, target_username@, acting_user_id, now, final(store)@, r),
{
    let target = match store.user_by_username(target_username) {
        Some(target) => target,
        None => {
            return Err(Error::NotFound(Details::Message(MSG_NO_SUCH_USERNAME)));
        },
    };
    if target.id == acting_user_id {
        return Err(Error::UnprocessableEntity(Details::Failure(MSG_SELF_FOLLOW)));
    }
    if store.user_by_id(acting_user_id).is_none() {
        return Err(Error::NotFound(Details::Message(MSG_NO_SUCH_ID)));
    }
    store.add_follower(
        Follower {
            user_id: target.id,
            follower_id: acting_user_id,
            created_at: now,
            updated_at: now,
        },
    );
    Ok(
        Reply {
            status: STATUS_CREATED,
            body: ProfileResponse { profile: profile_of_user(&target, true) },
        },
    )
}

/// What the follow route does to the store and replies: a payload that
/// breaks a field rule is a 400, for the profile first and then for the
/// follower; a follower whose email is unknown is a 404; otherwise what
/// [`follow`] does for the user with that email.
pub open spec fn follow_profile_outcome(
    before: Tables,
    profile: Profile,
    follower: ProfileFollow,
    now: i64,
    after: Tables,
    r: Result<Reply<ProfileResponse>, Error>,
) -> bool {
    if profile.violations().len() > 0 {
        after == before && (r matches Err(e) && e.is_invalid(profile.violations()))
    } else if follower.violations().len() > 0 {
        after == before && (r matches Err(e) && e.is_invalid(follower.violations()))
    } else {
        match before.user_with_email(follower.email@) {
            None => after == before && (r matches Err(e) && e.is_not_found(MSG_NO_SUCH_EMAIL)),
            Some(acting) => follow_outcome(before, profile.username@, acting.id, now, after, r),
        }
    }
}

/// Follows a user.
pub fn follow_profile(store: &mut Store, profile: &Profile, follower: &ProfileFollow, now: i64) -> (r:
    Result<Reply<ProfileResponse>, Error>)
    requires
        old(store).wf(),
    ensures
        final(store).wf(),
        follow_profile_outcome(old(store)@, *profile, *follower, now, final(store)@, r),
{
    if let Err(validation_errors) = profile.validate() {
        return Err(validation_errors_response(validation_errors));
    }
    if let Err(validation_errors) = follower.validate() {
        return Err(validation_errors_response(validation_errors));
    }
    let current_user = match store.user_by_email(&follower.email) {
        Some(user) => user,
        None => {
            return Err(Error::NotFound(Details::Message(MSG_NO_SUCH_EMAIL)));
        },
    };
    follow(store, &profile.username, current_user.id, now)
}

/// What unfollowing the user `target` as the user `acting` does to the store
/// and replies.
///
/// An unknown target is a 404, and so is an edge that is not there. In both
/// cases nothing changes. Otherwise the edge goes and the reply is a 202 with
/// the profile of the target, not followed.
pub open spec fn unfollow_outcome(
    before: Tables,
    target: Seq<char>,
    acting: u128,
    after: Tables,
    r: Result<Reply<ProfileResponse>, Error>,
) -> bool {
    match before.user_named(target) {
        None => after == before && (r matches Err(e) && e.is_not_found(MSG_NO_SUCH_USERNAME)),
        Some(user) => if !before.follows(user.id, acting) {
            after == before && (r matches Err(e) && e.is_not_found(MSG_NO_SUCH_ID))
        } else {
            &&& after == before.remove_follower(user.id, acting)
            &&& (r matches Ok(reply) && reply.status == STATUS_ACCEPTED && reply.body@
                == ProfileDoc { username: user.username, bio: user.bio, following: false })
        },
    }
}

/// Makes the user `acting_user_id` stop following the user
/// `target_username`.
pub fn unfollow(store: &mut Store, target_username: &String, acting_user_id: u128) -> (r: Result<
    Reply<ProfileResponse>,
    Error,
>)
    requires
        old(store).wf(),
    ensures
        final(store).wf(),
        unfollow_outcome(old(store)@, target_username@, acting_user_id, final(store)@, r),
{
    let target = match store.user_by_username(target_username) {
        Some(target) => target,
        None => {
            return Err(Error::NotFound(Details::Message(MSG_NO_SUCH_USERNAME)));
        },
    };
    if store.remove_follower(target.id, acting_user_id) {
        Ok(
            Reply {
                status: STATUS_ACCEPTED,
                body: ProfileResponse { profile: profile_of_user(&target, false) },
            },
        )
    } else {
        Err(Error::NotFound(Details::Message(MSG_NO_SUCH_ID)))
    }
}

/// What the unfollow route does to the store and replies: a payload that
/// breaks a field rule is a 400, for the profile first and then for the
/// follower; a follower whose email is unknown is a 404; otherwise what
/// [`unfollow`] does for the user with that email.
pub open spec fn unfollow_profile_outcome(
    before: Tables,
    profile: Profile,
    follower: ProfileFollow,
    after: Tables,
    r: Result<Reply<ProfileResponse>, Error>,
) -> bool {
    if profile.violations().len() > 0 {
        after == before && (r matches Err(e) && e.is_invalid(profile.violations()))
    } else if follower.violations().len() > 0 {
        after == before && (r matches Err(e) && e.is_invalid(follower.violations()))
    } else {
        match before.user_with_email(follower.email@) {
            None => after == before && (r matches Err(e) && e.is_not_found(MSG_NO_SUCH_EMAIL)),
            Some(acting) => unfollow_outcome(before, profile.username@, acting.id, after, r),
        }
    }
}

/// Unfollows a user.
pub fn unfollow_profile(store: &mut Store, profile: &Profile, follower: &ProfileFollow) -> (r:
    Result<Reply<ProfileResponse>, Error>)
    requires
        old(store).wf(),
    ensures
        final(store).wf(),
        unfollow_profile_outcome(old(store)@, *profile, *follower, final(store)@, r),
{
    if let Err(validation_errors) = profile.validate() {
        return Err(validation_errors_response(validation_errors));
    }
    if let Err(validation_errors) = follower.validate() {
        return Err(validation_errors_response(validation_errors));
    }
    let current_user = match store.user_by_email(&follower.email) {
        Some(user) => user,
        None => {
            return Err(Error::NotFound(Details::Message(MSG_NO_SUCH_EMAIL)));
        },
    };
    unfollow(store, &profile.username, current_user.id)
}

} // verus!
