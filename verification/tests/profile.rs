use aw_api::errors::{Details, Error};
use aw_api::routes::profile::{follow, follow_profile, get_profile, unfollow, unfollow_profile};
use aw_api::routes::users::register_with;
use aw_api::schemas::profile_schema::{Profile, ProfileFollow};
use aw_api::schemas::users_schema::{In, UserRegister};
use aw_api::store::{Store, Write};

fn enrol(store: &mut Store, id: u128, name: &str, email: &str) {
    let form = In {
        user: UserRegister {
            username: name.to_string(),
            email: email.to_string(),
            password: "12345678".to_string(),
        },
    };
    assert_eq!(201, register_with(store, id, "stored-hash".to_string(), form, 1_000).unwrap().status);
}

fn two_users() -> Store {
    let mut store = Store::new();
    enrol(&mut store, 1, "test_devactivity0", "test0@devactivity.com");
    enrol(&mut store, 2, "test_devactivity1", "test1@devactivity.com");
    store
}

fn profile(name: &str) -> Profile {
    Profile { username: name.to_string() }
}

fn by_email(email: &str) -> ProfileFollow {
    ProfileFollow { email: email.to_string() }
}

#[test]
fn get_profile_returns_a_200_if_it_success() {
    let mut store = Store::new();
    enrol(&mut store, 1, "test_devactivity", "test@devactivity.com");
    let response = get_profile(&store, &profile("test_devactivity"), None).unwrap();
    assert_eq!(200, response.status);
    assert_eq!(response.body.profile.username, "test_devactivity");
    assert_eq!(response.body.profile.bio, None);
    assert!(!response.body.profile.following);
}

#[test]
fn get_profile_returns_a_404_for_not_found_data() {
    let store = Store::new();
    let error = get_profile(&store, &profile("unknown"), None).unwrap_err();
    assert_eq!(404, error.status_code());
    assert!(matches!(
        error,
        Error::NotFound(Details::Message("Record not found for the provided username"))
    ));
}

#[test]
fn get_profile_with_a_bad_username_is_a_bad_request() {
    let store = Store::new();
    let error = get_profile(&store, &profile("$!#$"), None).unwrap_err();
    assert_eq!(400, error.status_code());
    match error {
        Error::BadRequest(Details::Invalid(errors)) => {
            assert_eq!(errors.errors.len(), 1);
            assert_eq!(errors.errors[0].field, "username");
            assert_eq!(errors.errors[0].code, "regex");
            assert_eq!(
                errors.errors[0].message,
                Some("fails validation - is not only alphanumeric/underscore characters")
            );
        }
        other => panic!("unexpected error: {:?}", other),
    }
}

#[test]
fn follow_a_profile_returns_a_201_if_it_success_and_unfollow_it_returns_a_202() {
    let mut store = two_users();
    let response = follow_profile(
        &mut store,
        &profile("test_devactivity0"),
        &by_email("test1@devactivity.com"),
        2_000,
    )
    .unwrap();
    assert_eq!(201, response.status);
    assert_eq!(response.body.profile.username, "test_devactivity0");
    assert!(response.body.profile.following);
    let response = unfollow_profile(
        &mut store,
        &profile("test_devactivity0"),
        &by_email("test1@devactivity.com"),
    )
    .unwrap();
    assert_eq!(202, response.status);
    assert!(!response.body.profile.following);
    assert!(store.followers().is_empty());
}

#[test]
fn follow_of_an_unknown_profile_is_not_found() {
    let mut store = two_users();
    let error = follow_profile(
        &mut store,
        &profile("test_devactivity"),
        &by_email("test1@devactivity.com"),
        2_000,
    )
    .unwrap_err();
    assert_eq!(404, error.status_code());
    let error = follow_profile(
        &mut store,
        &profile("test_devactivity0"),
        &by_email("nobody@devactivity.com"),
        2_000,
    )
    .unwrap_err();
    assert!(matches!(
        error,
        Error::NotFound(Details::Message("Record not found for the provided email"))
    ));
    let error = follow(&mut store, &"test_devactivity0".to_string(), 99, 2_000).unwrap_err();
    assert!(matches!(
        error,
        Error::NotFound(Details::Message("Record not found for the provided id"))
    ));
    assert!(store.followers().is_empty());
}

#[test]
fn follow_with_a_bad_payload_is_a_bad_request() {
    let mut store = two_users();
    let error =
        follow_profile(&mut store, &profile("ab"), &by_email("test1@devactivity.com"), 2_000)
            .unwrap_err();
    assert_eq!(400, error.status_code());
    let error =
        follow_profile(&mut store, &profile("test_devactivity0"), &by_email("testexample.com"), 2_000)
            .unwrap_err();
    match error {
        Error::BadRequest(Details::Invalid(errors)) => {
            assert_eq!(errors.errors.len(), 1);
            assert_eq!(errors.errors[0].field, "email");
            assert_eq!(errors.errors[0].code, "email");
            assert_eq!(
                errors.errors[0].message,
                Some("fails validation - is not a valid email address")
            );
        }
        other => panic!("unexpected error: {:?}", other),
    }
}

#[test]
fn follow_self_is_unprocessable_and_inserts_nothing() {
    let mut store = two_users();
    let writes = store.journal().len();
    let error = follow(&mut store, &"test_devactivity0".to_string(), 1, 2_000).unwrap_err();
    assert_eq!(422, error.status_code());
    assert!(matches!(
        error,
        Error::UnprocessableEntity(Details::Failure("You cannot follow yourself"))
    ));
    assert!(store.followers().is_empty());
    assert_eq!(store.journal().len(), writes);
    let error = follow_profile(
        &mut store,
        &profile("test_devactivity0"),
        &by_email("test0@devactivity.com"),
        2_000,
    )
    .unwrap_err();
    assert_eq!(422, error.status_code());
}

#[test]
fn unfollow_of_a_user_never_followed_is_not_found() {
    let mut store = two_users();
    let error = unfollow(&mut store, &"test_devactivity0".to_string(), 2).unwrap_err();
    assert_eq!(404, error.status_code());
    assert!(store.journal().len() == 2);
    let error = unfollow(&mut store, &"nobody".to_string(), 2).unwrap_err();
    assert!(matches!(
        error,
        Error::NotFound(Details::Message("Record not found for the provided username"))
    ));
}

#[test]
fn follow_twice_then_unfollow_once_is_not_following() {
    let mut store = two_users();
    let target = "test_devactivity0".to_string();
    assert_eq!(201, follow(&mut store, &target, 2, 2_000).unwrap().status);
    assert_eq!(201, follow(&mut store, &target, 2, 3_000).unwrap().status);
    assert_eq!(store.followers().len(), 1);
    assert_eq!(store.followers()[0].user_id, 1);
    assert_eq!(store.followers()[0].follower_id, 2);
    assert_eq!(store.followers()[0].created_at, 2_000);
    let seen = get_profile(&store, &profile("test_devactivity0"), Some(2)).unwrap();
    assert!(seen.body.profile.following);
    let seen = get_profile(&store, &profile("test_devactivity0"), None).unwrap();
    assert!(!seen.body.profile.following);
    let seen = get_profile(&store, &profile("test_devactivity1"), Some(1)).unwrap();
    assert!(!seen.body.profile.following);
    assert_eq!(202, unfollow(&mut store, &target, 2).unwrap().status);
    let seen = get_profile(&store, &profile("test_devactivity0"), Some(2)).unwrap();
    assert!(!seen.body.profile.following);
    let journal = store.journal();
    assert!(matches!(journal[journal.len() - 2], Write::InsertFollower(_)));
    assert!(matches!(journal[journal.len() - 1], Write::DeleteFollower(1, 2)));
}
