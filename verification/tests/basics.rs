use aw_api::handlers::{do_thing_that_fails, index, is_valid, process, UserError};
use aw_api::models::affected_rows_reply;
use aw_api::routes::ping::{ping, third_party_api};
use aw_api::schemas::article_comment_schema::AddComment;
use aw_api::schemas::articles_schema::{
    CreateArticle, CustomDateTime, UpdateArticle, UserForArticle,
};
use aw_api::schemas::profile_schema::ProfileFollow;
use aw_api::schemas::users_schema::{UserDelete, UserLogin, UserRegister};
use aw_api::settings::{DatabaseSettings, Mode};
use aw_api::slug::generate_slug;
use aw_api::validation::{is_match, ValidationErrors, USERNAME_PATTERN};

const ID: u128 = 0x557c_8018_5e21_4b74_8bb0_9040_e2e8_ead1;

#[test]
fn slug_is_blob_hyphen_title() {
    assert_eq!(generate_slug(ID, "My Topic"), "VXyAGF4hS3SLsJBA4ujq0Q-my-topic");
    assert_eq!(
        generate_slug(ID, "  Welcome to the party, fellas!  "),
        "VXyAGF4hS3SLsJBA4ujq0Q-welcome-to-the-party-fellas"
    );
    assert_eq!(generate_slug(ID, ""), "VXyAGF4hS3SLsJBA4ujq0Q-");
    assert_eq!(generate_slug(0, "a"), "AAAAAAAAAAAAAAAAAAAAAA-a");
}

#[test]
fn slugs_of_two_ids_differ_under_one_title() {
    let one = generate_slug(ID, "Same Title");
    let two = generate_slug(ID + 1, "Same Title");
    assert_ne!(one, two);
    assert_eq!(&one[22..], &two[22..]);
    assert_eq!(one.len(), 22 + 1 + "same-title".len());
}

#[test]
fn moments_are_written_with_milliseconds_and_z() {
    assert_eq!(CustomDateTime(0).serialize(), Some("1970-01-01T00:00:00.000Z".to_string()));
    assert_eq!(
        CustomDateTime(1_700_000_000_123).serialize(),
        Some("2023-11-14T22:13:20.123Z".to_string())
    );
    assert_eq!(CustomDateTime(-1).serialize(), Some("1969-12-31T23:59:59.999Z".to_string()));
    assert_eq!(CustomDateTime(i64::MAX).serialize(), None);
}

#[test]
fn username_pattern() {
    assert!(is_match(USERNAME_PATTERN, "test_devactivity"));
    assert!(is_match(USERNAME_PATTERN, "a_1"));
    assert!(!is_match(USERNAME_PATTERN, "ab"));
    assert!(!is_match(USERNAME_PATTERN, "$!#$"));
    assert!(!is_match(USERNAME_PATTERN, "abc def"));
    assert!(!is_match(USERNAME_PATTERN, "abc\n"));
    assert!(!is_match("(", "("));
    assert!(is_match("b+", "abbbc"));
}

fn codes(result: Result<(), ValidationErrors>) -> Vec<(&'static str, &'static str)> {
    match result {
        Ok(()) => vec![],
        Err(errors) => errors.errors.iter().map(|e| (e.field, e.code)).collect(),
    }
}

#[test]
fn username_rules() {
    let check = |name: &str| codes(UserForArticle { username: name.to_string() }.validate());
    assert!(check("alice").is_empty());
    assert!(check("abc").is_empty());
    assert!(check("a2345678901234567890").is_empty());
    assert_eq!(check("a23456789012345678901"), vec![("username", "length")]);
    assert_eq!(check("ab"), vec![("username", "length"), ("username", "regex")]);
    assert_eq!(check("al ice"), vec![("username", "regex")]);
    let short = |name: &str| codes(UserDelete { username: name.to_string() }.validate());
    assert_eq!(short("ab"), vec![("username", "regex")]);
    assert_eq!(short(""), vec![("username", "length"), ("username", "regex")]);
    assert!(short("abc").is_empty());
}

#[test]
fn length_counts_characters_not_bytes() {
    let check = |password: &str| {
        codes(
            UserLogin { email: "a@example.com".to_string(), password: password.to_string() }
                .validate(),
        )
    };
    assert!(check("12345678").is_empty());
    assert_eq!(check("1234567"), vec![("password", "length")]);
    assert!(check("äöüäöüäö").is_empty());
    assert!(check(&"x".repeat(72)).is_empty());
    assert_eq!(check(&"x".repeat(73)), vec![("password", "length")]);
    assert_eq!(check(&"ä".repeat(37)).len(), 0);
}

#[test]
fn email_rules() {
    let check = |email: &str| codes(ProfileFollow { email: email.to_string() }.validate());
    assert!(check("test@devactivity.com").is_empty());
    assert!(check("email@[127.0.0.1]").is_empty());
    assert_eq!(check("testexample.com"), vec![("email", "email")]);
    assert_eq!(check(""), vec![("email", "email")]);
    assert_eq!(check("a@b@"), vec![("email", "email")]);
}

#[test]
fn payload_rules() {
    let register = UserRegister {
        username: "test_devactivity".to_string(),
        email: "test@devactivity.com".to_string(),
        password: "12345678".to_string(),
    };
    assert!(register.validate().is_ok());
    let article = CreateArticle {
        title: "t".to_string(),
        description: "".to_string(),
        body: "b".to_string(),
        tag_list: vec![],
    };
    assert_eq!(codes(article.validate()), vec![("description", "length"), ("tag_list", "length")]);
    let nothing = UpdateArticle { title: None, description: None, body: None, tag_list: None };
    assert!(nothing.validate().is_ok());
    let empty = UpdateArticle {
        title: Some("".to_string()),
        description: None,
        body: Some("b".to_string()),
        tag_list: Some(vec![]),
    };
    assert_eq!(codes(empty.validate()), vec![("title", "length"), ("tag_list", "length")]);
    assert_eq!(codes(AddComment { body: "".to_string() }.validate()), vec![("body", "length")]);
}

#[test]
fn modes() {
    assert_eq!(Mode::Development.as_str(), "development");
    assert_eq!(Mode::Production.as_str(), "production");
    assert_eq!(Mode::try_from("production".to_string()), Ok(Mode::Production));
    assert_eq!(Mode::try_from("DEVELOPMENT".to_string()), Ok(Mode::Development));
    assert_eq!(Mode::try_from("Production".to_string()), Ok(Mode::Production));
    assert_eq!(
        Mode::try_from("Staging".to_string()),
        Err("staging is not a supported environment. use either development or production"
            .to_string())
    );
    assert_eq!(Mode::from_environment(None), Ok(Mode::Development));
    assert_eq!(Mode::from_environment(Some("production".to_string())), Ok(Mode::Production));
    assert!(Mode::from_environment(Some("".to_string())).is_err());
}

#[test]
fn connection_options() {
    let settings = DatabaseSettings {
        username: "postgres".to_string(),
        password: "secret".to_string(),
        port: 5432,
        host: "localhost".to_string(),
        database_name: "aw".to_string(),
    };
    let server = settings.parse_connection_string();
    assert_eq!(server.host, "localhost");
    assert_eq!(server.username, "postgres");
    assert_eq!(server.password, "secret");
    assert_eq!(server.port, 5432);
    assert_eq!(server.database, None);
    let database = settings.database_connection_string();
    assert_eq!(database.host, "localhost");
    assert_eq!(database.port, 5432);
    assert_eq!(database.database, Some("aw".to_string()));
}

#[test]
fn handlers() {
    assert!(is_valid());
    assert_eq!(do_thing_that_fails(), Err(UserError::InternalError));
    assert_eq!(process(""), Err(UserError::InvalidInput));
    assert_eq!(process("value"), Err(UserError::InternalError));
    assert_eq!(UserError::InvalidInput.status_code(), 400);
    assert_eq!(UserError::InternalError.status_code(), 500);
    assert_eq!(UserError::InvalidInput.message(), "Invalid input provided.");
    assert_eq!(
        UserError::InternalError.message(),
        "An internal error occurred. Please try again later."
    );
    assert_eq!(index(true), 200);
    assert_eq!(index(false), 400);
    assert_eq!(affected_rows_reply(1, "done", "missing"), (200, "done"));
    assert_eq!(affected_rows_reply(0, "done", "missing"), (404, "missing"));
}

#[test]
fn ping_and_third_party() {
    assert_eq!(ping().status, 200);
    let passed = third_party_api(Some((true, "data".to_string())));
    assert_eq!((passed.status, passed.body), (200, Some("data".to_string())));
    let refused = third_party_api(Some((false, "data".to_string())));
    assert_eq!((refused.status, refused.body), (500, None));
    assert_eq!(third_party_api(None).status, 500);
}

#[test]
fn test_index_ok() {
    assert_eq!(index(true), 200);
}

#[test]
fn test_index_not_ok() {
    assert_eq!(index(false), 400);
}

#[test]
fn ping_test_get_ping() {
    let response = ping();
    assert_eq!(200, response.status);
    assert_eq!(response.body, ());
}
