use aw_api::errors::{Details, Error};
use aw_api::routes::users::{delete, login, register, register_with, update, update_with};
use aw_api::schemas::users_schema::{
    In, UserDelete, UserLogin, UserRegister, UserUpdate,
};
use aw_api::store::Store;
use aw_api::utils::{hash_password, validation_errors_response, verify_password};
use aw_api::validation::ValidationErrors;

fn registration(username: &str, email: &str, password: &str) -> In<UserRegister> {
    In {
        user: UserRegister {
            username: username.to_string(),
            email: email.to_string(),
            password: password.to_string(),
        },
    }
}

fn credentials(email: &str, password: &str) -> In<UserLogin> {
    In { user: UserLogin { email: email.to_string(), password: password.to_string() } }
}

fn change(username: Option<&str>, email: Option<&str>, password: Option<&str>, bio: Option<&str>) -> In<UserUpdate> {
    In {
        user: UserUpdate {
            username: username.map(|s| s.to_string()),
            email: email.map(|s| s.to_string()),
            password: password.map(|s| s.to_string()),
            bio: bio.map(|s| s.to_string()),
        },
    }
}

fn removal(username: &str) -> In<UserDelete> {
    In { user: UserDelete { username: username.to_string() } }
}

#[test]
fn register_user_returns_a_201_for_valid_payload_data_and_login_should_be_success() {
    let mut store = Store::new();
    let response =
        register(&mut store, registration("test_devactivity", "test@devactivity.com", "12345678"), 1_000)
            .unwrap();
    assert_eq!(201, response.status);
    assert!(matches!(response.body, Details::Message("Record created successfully")));
    let response = login(&store, &credentials("test@devactivity.com", "12345678")).unwrap();
    assert_eq!(201, response.status);
    assert!(matches!(response.body, Details::Message("Authentication successful")));
}

#[test]
fn register_stores_a_hash_and_not_the_password() {
    let mut store = Store::new();
    register(&mut store, registration("alice", "alice@example.com", "12345678"), 1_000).unwrap();
    let user = store.user_by_username(&"alice".to_string()).unwrap();
    assert_ne!(user.password, "12345678");
    assert!(user.password.starts_with("$argon2"));
    assert_eq!(user.email, "alice@example.com");
    assert_eq!(user.bio, None);
    assert_eq!(user.created_at, 1_000);
    assert_eq!(user.updated_at, 1_000);
}

#[test]
fn login_with_a_wrong_password_is_unauthorized() {
    let mut store = Store::new();
    register(&mut store, registration("alice", "alice@example.com", "12345678"), 1_000).unwrap();
    let error = login(&store, &credentials("alice@example.com", "87654321")).unwrap_err();
    assert_eq!(401, error.status_code());
    assert!(matches!(error, Error::Unauthorized(Details::Failure("Authentication failed"))));
}

#[test]
fn login_against_a_text_that_is_no_hash_is_unauthorized() {
    let mut store = Store::new();
    register_with(
        &mut store,
        7,
        "12345678".to_string(),
        registration("alice", "alice@example.com", "12345678"),
        1_000,
    )
    .unwrap();
    let error = login(&store, &credentials("alice@example.com", "12345678")).unwrap_err();
    assert_eq!(401, error.status_code());
}

#[test]
fn login_of_an_unknown_user_is_not_found() {
    let store = Store::new();
    let error = login(&store, &credentials("unknown@unknown.com", "abcd1234")).unwrap_err();
    assert_eq!(404, error.status_code());
    assert!(matches!(
        error,
        Error::NotFound(Details::Message("Record not found for the provided email"))
    ));
}

#[test]
fn register_user_returns_a_400_for_invalid_payload_data() {
    let mut store = Store::new();
    let error =
        register(&mut store, registration("$!#$", "testexample.com", "1234"), 1_000).unwrap_err();
    assert_eq!(400, error.status_code());
    match error {
        Error::BadRequest(Details::Invalid(errors)) => {
            let found: Vec<(&str, &str)> =
                errors.errors.iter().map(|e| (e.field, e.code)).collect();
            assert_eq!(
                found,
                vec![("username", "regex"), ("email", "email"), ("password", "length")]
            );
            assert_eq!(
                errors.errors[2].message,
                Some("fails validation - must be 8-72 characters long")
            );
        }
        other => panic!("unexpected error: {:?}", other),
    }
    assert!(store.users().is_empty());
    assert!(store.journal().is_empty());
}

#[test]
fn register_with_a_taken_name_or_email_is_an_internal_error() {
    let mut store = Store::new();
    register(&mut store, registration("alice", "alice@example.com", "12345678"), 1_000).unwrap();
    let error =
        register(&mut store, registration("alice", "other@example.com", "12345678"), 1_000)
            .unwrap_err();
    assert_eq!(500, error.status_code());
    assert!(matches!(error, Error::InternalServerError));
    let error =
        register(&mut store, registration("alice2", "alice@example.com", "12345678"), 1_000)
            .unwrap_err();
    assert!(matches!(error, Error::InternalServerError));
    let taken_id = store.users()[0].id;
    let error = register_with(
        &mut store,
        taken_id,
        "hash".to_string(),
        registration("carol", "carol@example.com", "12345678"),
        1_000,
    )
    .unwrap_err();
    assert!(matches!(error, Error::InternalServerError));
    assert_eq!(store.users().len(), 1);
    assert_eq!(store.journal().len(), 1);
}

#[test]
fn update_user_returns_a_201_for_valid_payload_data() {
    let mut store = Store::new();
    register(&mut store, registration("test_devactivity", "test@devactivity.com", "12345678"), 1_000)
        .unwrap();
    let response = update(
        &mut store,
        change(Some("test_devactivity"), Some("new@devactivity.com"), Some("12345678"), Some("i am a human")),
        2_000,
    )
    .unwrap();
    assert_eq!(201, response.status);
    assert!(matches!(response.body, Details::Message("Record updated successfully")));
    let user = store.user_by_username(&"test_devactivity".to_string()).unwrap();
    assert_eq!(user.email, "new@devactivity.com");
    assert_eq!(user.bio, Some("i am a human".to_string()));
    assert_eq!(user.created_at, 1_000);
    assert_eq!(user.updated_at, 2_000);
    assert!(login(&store, &credentials("new@devactivity.com", "12345678")).is_ok());
}

#[test]
fn update_user_returns_a_404_for_not_found_data() {
    let mut store = Store::new();
    let error = update(
        &mut store,
        change(Some("test_devactivity"), Some("new@devactivity.com"), Some("12345678"), Some("i am a human")),
        2_000,
    )
    .unwrap_err();
    assert_eq!(404, error.status_code());
    let error = update(&mut store, change(None, None, None, Some("bio")), 2_000).unwrap_err();
    assert_eq!(404, error.status_code());
}

#[test]
fn update_user_returns_a_400_for_invalid_payload_data() {
    let mut store = Store::new();
    let error = update(
        &mut store,
        change(Some("$!#$"), Some("testexample.com"), Some("1234"), None),
        2_000,
    )
    .unwrap_err();
    assert_eq!(400, error.status_code());
    match error {
        Error::BadRequest(Details::Invalid(errors)) => {
            let found: Vec<(&str, &str, Option<&str>)> =
                errors.errors.iter().map(|e| (e.field, e.code, e.message)).collect();
            assert_eq!(found.len(), 3);
            assert_eq!(found[0].0, "username");
            assert_eq!(found[1], ("email", "email", None));
            assert_eq!(found[2].0, "password");
        }
        other => panic!("unexpected error: {:?}", other),
    }
}

#[test]
fn update_leaves_absent_fields_alone() {
    let mut store = Store::new();
    register_with(
        &mut store,
        7,
        "old-hash".to_string(),
        registration("alice", "alice@example.com", "12345678"),
        1_000,
    )
    .unwrap();
    update_with(&mut store, None, change(Some("alice"), None, None, Some("hello")), 2_000).unwrap();
    let user = store.user_by_id(7).unwrap();
    assert_eq!(user.email, "alice@example.com");
    assert_eq!(user.password, "old-hash");
    assert_eq!(user.bio, Some("hello".to_string()));
    update_with(
        &mut store,
        Some("new-hash".to_string()),
        change(Some("alice"), None, Some("abcdefgh"), None),
        3_000,
    )
    .unwrap();
    let user = store.user_by_id(7).unwrap();
    assert_eq!(user.password, "new-hash");
    assert_eq!(user.bio, Some("hello".to_string()));
    assert_eq!(user.updated_at, 3_000);
}

#[test]
fn update_to_a_taken_email_is_an_internal_error() {
    let mut store = Store::new();
    register_with(&mut store, 7, "h".to_string(), registration("alice", "alice@example.com", "12345678"), 1_000)
        .unwrap();
    register_with(&mut store, 8, "h".to_string(), registration("bob", "bob@example.com", "12345678"), 1_000)
        .unwrap();
    let error =
        update_with(&mut store, None, change(Some("bob"), Some("alice@example.com"), None, None), 2_000)
            .unwrap_err();
    assert_eq!(500, error.status_code());
    assert_eq!(store.user_by_id(8).unwrap().email, "bob@example.com");
    assert_eq!(store.journal().len(), 2);
}

#[test]
fn delete_user_returns_a_200_for_success() {
    let mut store = Store::new();
    let response =
        register(&mut store, registration("test_devactivity", "test@devactivity.com", "12345678"), 1_000)
            .unwrap();
    assert_eq!(201, response.status);
    let response = delete(&mut store, &removal("test_devactivity")).unwrap();
    assert_eq!(200, response.status);
    assert!(matches!(response.body, Details::Message("Record deleted successfully")));
    assert!(store.users().is_empty());
}

#[test]
fn delete_user_returns_a_404_for_not_found_data() {
    let mut store = Store::new();
    let error = delete(&mut store, &removal("test_devactivity")).unwrap_err();
    assert_eq!(404, error.status_code());
    let error = delete(&mut store, &removal("")).unwrap_err();
    assert_eq!(400, error.status_code());
}

#[test]
fn hashes_differ_and_verify() {
    let first = hash_password(b"12345678").unwrap();
    let second = hash_password(b"12345678").unwrap();
    assert_ne!(first, second);
    assert!(verify_password(b"12345678", &first));
    assert!(verify_password(b"12345678", &second));
    assert!(!verify_password(b"12345679", &first));
    assert!(!verify_password(b"12345678", "12345678"));
    assert!(!verify_password(b"", ""));
}

#[test]
fn broken_rules_make_a_400_or_a_422() {
    let mut errors = ValidationErrors::new();
    errors.add("title", "length", Some("fails validation - cannot be empty"));
    let bad_request = validation_errors_response(errors.clone());
    assert_eq!(400, bad_request.status_code());
    assert!(matches!(bad_request.details(), Some(Details::Invalid(_))));
    let unprocessable = Error::from(errors);
    assert_eq!(422, unprocessable.status_code());
    match unprocessable {
        Error::UnprocessableEntity(Details::Errors(errors)) => {
            assert_eq!(errors.errors.len(), 1);
            assert_eq!(errors.errors[0].field, "title");
        }
        other => panic!("unexpected error: {:?}", other),
    }
    assert!(Error::InternalServerError.details().is_none());
    assert_eq!(401, Error::Unauthorized(Details::Failure("x")).status_code());
    assert_eq!(403, Error::Forbidden(Details::Failure("x")).status_code());
    assert_eq!(404, Error::NotFound(Details::Message("x")).status_code());
}
