use aw_api::errors::{Details, Error, Reply};
use aw_api::routes::articles::{
    create_article, create_article_with_id, delete_articles_by_slug, favorite_articles_by_slug,
    get_article_list_response, get_article_response, get_articles, get_articles_by_slug,
    get_articles_feed, replace_tags, unfavorite_articles_by_slug, update_articles_by_slug,
};
use aw_api::routes::profile::follow;
use aw_api::routes::users::register_with;
use aw_api::schemas::articles_schema::{
    ArticlePath, ArticleResponse, ArticlesParams, CreateArticle, FeedParams, UpdateArticle,
    UserForArticle,
};
use aw_api::schemas::users_schema::{In, UserRegister};
use aw_api::store::{Store, Write};

const ALICE: u128 = 1;
const BOB: u128 = 2;
const TOPIC: u128 = 0x557c_8018_5e21_4b74_8bb0_9040_e2e8_ead1;
const TOPIC_BLOB: &str = "VXyAGF4hS3SLsJBA4ujq0Q";

fn add_user(store: &mut Store, id: u128, name: &str) {
    let form = In {
        user: UserRegister {
            username: name.to_string(),
            email: format!("{}@example.com", name),
            password: "12345678".to_string(),
        },
    };
    let reply = register_with(store, id, "stored-hash".to_string(), form, 1_000).unwrap();
    assert_eq!(reply.status, 201);
}

fn acting(name: &str) -> UserForArticle {
    UserForArticle { username: name.to_string() }
}

fn at(slug: &str) -> ArticlePath {
    ArticlePath { slug: slug.to_string() }
}

fn topic(tags: &[&str]) -> CreateArticle {
    CreateArticle {
        title: "My Topic".to_string(),
        description: "the most interesting topic".to_string(),
        body: "this is body article".to_string(),
        tag_list: tags.iter().map(|t| t.to_string()).collect(),
    }
}

fn store_with_topic() -> (Store, String) {
    let mut store = Store::new();
    add_user(&mut store, ALICE, "alice");
    add_user(&mut store, BOB, "bob_the_reader");
    let reply =
        create_article_with_id(&mut store, TOPIC, topic(&["rust", "web"]), acting("alice"), 2_000)
            .unwrap();
    (store, reply.body.article.slug)
}

fn sorted(mut tags: Vec<String>) -> Vec<String> {
    tags.sort();
    tags
}

fn only_title(title: &str) -> UpdateArticle {
    UpdateArticle { title: Some(title.to_string()), description: None, body: None, tag_list: None }
}

fn body_of(reply: Result<Reply<ArticleResponse>, Error>) -> ArticleResponse {
    reply.unwrap().body
}

#[test]
fn create_article_returns_a_201_for_valid_payload_data() {
    let mut store = Store::new();
    add_user(&mut store, ALICE, "test_devactivity");
    let payload = CreateArticle {
        title: "the-interesting-topic".to_string(),
        description: "the most interesting topic".to_string(),
        body: "this is body article".to_string(),
        tag_list: vec!["interest".to_string()],
    };
    let response = create_article(&mut store, payload, acting("test_devactivity"), 2_000);
    assert_eq!(201, response.unwrap().status);
}

#[test]
fn create_article_returns_a_400_for_invalid_payload_data() {
    let mut store = Store::new();
    add_user(&mut store, ALICE, "test_devactivity");
    let payload = CreateArticle {
        title: "".to_string(),
        description: "".to_string(),
        body: "".to_string(),
        tag_list: vec![],
    };
    let error = create_article(&mut store, payload, acting("test_devactivity"), 2_000).unwrap_err();
    assert_eq!(400, error.status_code());
    match error {
        Error::BadRequest(Details::Invalid(errors)) => {
            let fields: Vec<&str> = errors.errors.iter().map(|e| e.field).collect();
            assert_eq!(fields, vec!["title", "description", "body", "tag_list"]);
            assert!(errors.errors.iter().all(|e| e.code == "length"));
            assert!(errors
                .errors
                .iter()
                .all(|e| e.message == Some("fails validation - cannot be empty")));
        }
        other => panic!("unexpected error: {:?}", other),
    }
    assert!(store.articles().is_empty());
    assert_eq!(store.journal().len(), 1);
}

#[test]
fn create_article_checks_the_username_after_the_article() {
    let mut store = Store::new();
    let error = create_article(&mut store, topic(&["rust"]), acting("a!"), 2_000).unwrap_err();
    match error {
        Error::BadRequest(Details::Invalid(errors)) => {
            let codes: Vec<&str> = errors.errors.iter().map(|e| e.code).collect();
            assert_eq!(codes, vec!["length", "regex"]);
            assert!(errors.errors.iter().all(|e| e.field == "username"));
        }
        other => panic!("unexpected error: {:?}", other),
    }
}

#[test]
fn create_article_for_an_unknown_author_is_not_found() {
    let mut store = Store::new();
    let error = create_article(&mut store, topic(&["rust"]), acting("nobody"), 2_000).unwrap_err();
    assert_eq!(404, error.status_code());
    assert!(matches!(
        error,
        Error::NotFound(Details::Message("Record not found for the provided username"))
    ));
    assert!(store.journal().is_empty());
}

#[test]
fn created_article_has_slug_tags_and_no_favorites() {
    let (store, slug) = store_with_topic();
    assert_eq!(slug, format!("{}-my-topic", TOPIC_BLOB));
    let view = get_article_response(&store, &slug, None).unwrap().article;
    assert_eq!(view.slug, slug);
    assert_eq!(view.title, "My Topic");
    assert_eq!(view.description, "the most interesting topic");
    assert_eq!(view.body, "this is body article");
    assert_eq!(sorted(view.tag_list), vec!["rust".to_string(), "web".to_string()]);
    assert_eq!(view.favorites_count, 0);
    assert!(!view.favorited);
    assert_eq!(view.author.username, "alice");
    assert_eq!(view.author.bio, None);
    assert!(!view.author.following);
    assert_eq!(view.created_at.0, 2_000);
    assert_eq!(view.updated_at.0, 2_000);
}

#[test]
fn create_article_replies_with_the_view_of_its_author() {
    let mut store = Store::new();
    add_user(&mut store, ALICE, "alice");
    let reply =
        create_article_with_id(&mut store, TOPIC, topic(&["rust", "web"]), acting("alice"), 2_000)
            .unwrap();
    assert_eq!(reply.status, 201);
    let read = get_article_response(&store, &reply.body.article.slug, Some(ALICE)).unwrap();
    assert_eq!(read.article.title, reply.body.article.title);
    assert_eq!(read.article.tag_list, reply.body.article.tag_list);
    assert_eq!(read.article.favorites_count, reply.body.article.favorites_count);
}

#[test]
fn create_article_keeps_each_tag_once() {
    let mut store = Store::new();
    add_user(&mut store, ALICE, "alice");
    let reply = create_article_with_id(
        &mut store,
        TOPIC,
        topic(&["rust", "web", "rust"]),
        acting("alice"),
        2_000,
    )
    .unwrap();
    assert_eq!(reply.body.article.tag_list, vec!["rust".to_string(), "web".to_string()]);
}

#[test]
fn create_article_under_a_taken_id_is_an_internal_error() {
    let (mut store, _) = store_with_topic();
    let before = store.journal().len();
    let mut other = topic(&["again"]);
    other.title = "Another".to_string();
    let error =
        create_article_with_id(&mut store, TOPIC, other, acting("alice"), 3_000).unwrap_err();
    assert!(matches!(error, Error::InternalServerError));
    assert_eq!(500, error.status_code());
    assert_eq!(store.articles().len(), 1);
    assert_eq!(store.journal().len(), before);
}

#[test]
fn two_articles_with_one_title_get_two_slugs() {
    let (mut store, first) = store_with_topic();
    let second =
        create_article_with_id(&mut store, TOPIC + 1, topic(&["rust"]), acting("alice"), 3_000)
            .unwrap()
            .body
            .article
            .slug;
    assert_ne!(first, second);
    assert!(second.ends_with("-my-topic"));
    assert_eq!(store.articles().len(), 2);
}

#[test]
fn get_article_for_a_missing_slug_is_not_found() {
    let (store, _) = store_with_topic();
    let error = get_articles_by_slug(&store, &at("no-such-slug")).unwrap_err();
    assert_eq!(404, error.status_code());
    assert!(matches!(
        error,
        Error::NotFound(Details::Message("Record not found for the provided slug"))
    ));
}

#[test]
fn get_article_by_slug_returns_a_200() {
    let (store, slug) = store_with_topic();
    let reply = get_articles_by_slug(&store, &at(&slug)).unwrap();
    assert_eq!(200, reply.status);
    assert_eq!(reply.body.article.title, "My Topic");
    assert!(!reply.body.article.favorited);
}

#[test]
fn update_with_only_a_title_keeps_the_rest() {
    let (mut store, slug) = store_with_topic();
    let updated = body_of(update_articles_by_slug(
        &mut store,
        &at(&slug),
        &acting("alice"),
        only_title("X"),
        5_000,
    ))
    .article;
    assert_eq!(updated.title, "X");
    assert_eq!(updated.slug, format!("{}-x", TOPIC_BLOB));
    assert_eq!(updated.description, "the most interesting topic");
    assert_eq!(updated.body, "this is body article");
    assert_eq!(updated.tag_list, vec!["rust".to_string(), "web".to_string()]);
    assert_eq!(updated.created_at.0, 2_000);
    assert_eq!(updated.updated_at.0, 5_000);
    assert!(get_article_response(&store, &slug, None).is_err());
    assert!(get_article_response(&store, &updated.slug, None).is_ok());
}

#[test]
fn update_returns_a_200_and_replaces_the_tags() {
    let (mut store, slug) = store_with_topic();
    let form = UpdateArticle {
        title: None,
        description: Some("new description".to_string()),
        body: Some("new body".to_string()),
        tag_list: Some(vec!["verus".to_string()]),
    };
    let reply =
        update_articles_by_slug(&mut store, &at(&slug), &acting("alice"), form, 5_000).unwrap();
    assert_eq!(200, reply.status);
    let article = reply.body.article;
    assert_eq!(article.slug, slug);
    assert_eq!(article.title, "My Topic");
    assert_eq!(article.description, "new description");
    assert_eq!(article.body, "new body");
    assert_eq!(article.tag_list, vec!["verus".to_string()]);
}

#[test]
fn update_by_someone_else_is_forbidden_and_changes_nothing() {
    let (mut store, slug) = store_with_topic();
    let writes = store.journal().len();
    let error = update_articles_by_slug(
        &mut store,
        &at(&slug),
        &acting("bob_the_reader"),
        only_title("Hijacked"),
        5_000,
    )
    .unwrap_err();
    assert_eq!(403, error.status_code());
    assert!(matches!(
        error,
        Error::Forbidden(Details::Failure("user is not the author of article in question"))
    ));
    assert_eq!(store.journal().len(), writes);
    let view = get_article_response(&store, &slug, None).unwrap().article;
    assert_eq!(view.title, "My Topic");
    assert_eq!(view.updated_at.0, 2_000);
}

#[test]
fn update_of_a_missing_article_is_not_found() {
    let (mut store, _) = store_with_topic();
    let error =
        update_articles_by_slug(&mut store, &at("gone"), &acting("alice"), only_title("X"), 5_000)
            .unwrap_err();
    assert_eq!(404, error.status_code());
    let error = update_articles_by_slug(
        &mut store,
        &at("gone"),
        &acting("stranger"),
        only_title("X"),
        5_000,
    )
    .unwrap_err();
    assert!(matches!(
        error,
        Error::NotFound(Details::Message("Record not found for the provided username"))
    ));
}

#[test]
fn update_with_an_empty_title_is_a_bad_request() {
    let (mut store, slug) = store_with_topic();
    let error =
        update_articles_by_slug(&mut store, &at(&slug), &acting("alice"), only_title(""), 5_000)
            .unwrap_err();
    assert_eq!(400, error.status_code());
}

#[test]
fn delete_by_someone_else_is_forbidden_and_changes_nothing() {
    let (mut store, slug) = store_with_topic();
    let writes = store.journal().len();
    let error =
        delete_articles_by_slug(&mut store, &at(&slug), &acting("bob_the_reader")).unwrap_err();
    assert_eq!(403, error.status_code());
    assert_eq!(store.journal().len(), writes);
    assert_eq!(store.articles().len(), 1);
    assert_eq!(store.tags().len(), 2);
}

#[test]
fn delete_takes_tags_and_favorites_along() {
    let (mut store, slug) = store_with_topic();
    favorite_articles_by_slug(&mut store, &at(&slug), &acting("bob_the_reader")).unwrap();
    let writes = store.journal().len();
    let reply = delete_articles_by_slug(&mut store, &at(&slug), &acting("alice")).unwrap();
    assert_eq!(200, reply.status);
    assert!(matches!(reply.body, Details::Message("Record deleted successfully")));
    assert!(store.articles().is_empty());
    assert!(store.tags().is_empty());
    assert!(store.favorites().is_empty());
    let journal = store.journal();
    assert_eq!(journal.len(), writes + 3);
    assert!(matches!(journal[writes], Write::DeleteTags(TOPIC)));
    assert!(matches!(journal[writes + 1], Write::DeleteFavorites(TOPIC)));
    assert!(matches!(journal[writes + 2], Write::DeleteArticle(TOPIC)));
    let again = delete_articles_by_slug(&mut store, &at(&slug), &acting("alice")).unwrap_err();
    assert_eq!(404, again.status_code());
}

#[test]
fn favorite_twice_leaves_one_edge() {
    let (mut store, slug) = store_with_topic();
    let first = favorite_articles_by_slug(&mut store, &at(&slug), &acting("bob_the_reader"));
    let first = first.unwrap();
    assert_eq!(201, first.status);
    assert!(matches!(first.body, Details::Message("Record created successfully")));
    let writes = store.journal().len();
    let second = favorite_articles_by_slug(&mut store, &at(&slug), &acting("bob_the_reader"));
    assert_eq!(201, second.unwrap().status);
    assert_eq!(store.favorites().len(), 1);
    assert_eq!(store.journal().len(), writes);
    let for_bob = get_article_response(&store, &slug, Some(BOB)).unwrap().article;
    assert_eq!(for_bob.favorites_count, 1);
    assert!(for_bob.favorited);
    let for_alice = get_article_response(&store, &slug, Some(ALICE)).unwrap().article;
    assert_eq!(for_alice.favorites_count, 1);
    assert!(!for_alice.favorited);
}

#[test]
fn favorite_of_a_missing_article_or_user_is_not_found() {
    let (mut store, slug) = store_with_topic();
    let error = favorite_articles_by_slug(&mut store, &at("gone"), &acting("alice")).unwrap_err();
    assert!(matches!(
        error,
        Error::NotFound(Details::Message("Record not found for the provided slug"))
    ));
    let error = favorite_articles_by_slug(&mut store, &at(&slug), &acting("stranger")).unwrap_err();
    assert_eq!(404, error.status_code());
    assert!(store.favorites().is_empty());
}

#[test]
fn unfavorite_removes_the_edge_once() {
    let (mut store, slug) = store_with_topic();
    favorite_articles_by_slug(&mut store, &at(&slug), &acting("bob_the_reader")).unwrap();
    let reply =
        unfavorite_articles_by_slug(&mut store, &at(&slug), &acting("bob_the_reader")).unwrap();
    assert_eq!(200, reply.status);
    assert!(store.favorites().is_empty());
    let error =
        unfavorite_articles_by_slug(&mut store, &at(&slug), &acting("bob_the_reader")).unwrap_err();
    assert_eq!(404, error.status_code());
    assert!(matches!(
        error,
        Error::NotFound(Details::Message("Record not found for the provided id"))
    ));
}

#[test]
fn replace_tags_returns_the_rows_that_came_in() {
    let (mut store, slug) = store_with_topic();
    let tags = vec!["b".to_string(), "a".to_string(), "b".to_string()];
    let inserted = replace_tags(&mut store, TOPIC, &tags, 7_000).unwrap();
    let names: Vec<&str> = inserted.iter().map(|t| t.tag_name.as_str()).collect();
    assert_eq!(names, vec!["b", "a"]);
    assert!(inserted.iter().all(|t| t.article_id == TOPIC && t.created_at == 7_000));
    let view = get_article_response(&store, &slug, None).unwrap().article;
    assert_eq!(view.tag_list, vec!["b".to_string(), "a".to_string()]);
}

#[test]
fn replace_tags_of_a_missing_article_is_an_internal_error() {
    let mut store = Store::new();
    let error = replace_tags(&mut store, TOPIC, &vec!["a".to_string()], 7_000).unwrap_err();
    assert!(matches!(error, Error::InternalServerError));
    assert!(store.journal().is_empty());
}

#[test]
fn list_view_keeps_the_order_and_counts() {
    let (mut store, first) = store_with_topic();
    let second =
        create_article_with_id(&mut store, TOPIC + 1, topic(&["more"]), acting("alice"), 3_000)
            .unwrap()
            .body
            .article
            .slug;
    let rows = store.articles().clone();
    let list = get_article_list_response(&store, &rows, None).unwrap();
    assert_eq!(list.articles_count, 2);
    assert_eq!(list.articles.len(), 2);
    assert_eq!(list.articles[0].slug, first);
    assert_eq!(list.articles[1].slug, second);
    let reversed = vec![rows[1].clone(), rows[0].clone()];
    let list = get_article_list_response(&store, &reversed, None).unwrap();
    assert_eq!(list.articles[0].slug, second);
    assert_eq!(list.articles[1].slug, first);
}

#[test]
fn list_view_fails_as_a_whole() {
    let (store, _) = store_with_topic();
    let mut rows = store.articles().clone();
    let mut ghost = rows[0].clone();
    ghost.slug = "not-stored".to_string();
    rows.push(ghost);
    let error = get_article_list_response(&store, &rows, None).unwrap_err();
    assert_eq!(404, error.status_code());
}

fn everything() -> ArticlesParams {
    ArticlesParams { tag: None, author: None, favorited: None, limit: None, offset: None }
}

fn store_with_three_articles() -> Store {
    let mut store = Store::new();
    add_user(&mut store, ALICE, "alice");
    add_user(&mut store, BOB, "bob_the_reader");
    let mut middle = topic(&["rust"]);
    middle.title = "Middle".to_string();
    create_article_with_id(&mut store, 10, middle, acting("alice"), 2_000).unwrap();
    let mut newest = topic(&["web"]);
    newest.title = "Newest".to_string();
    create_article_with_id(&mut store, 11, newest, acting("bob_the_reader"), 3_000).unwrap();
    let mut oldest = topic(&["rust", "web"]);
    oldest.title = "Oldest".to_string();
    create_article_with_id(&mut store, 12, oldest, acting("alice"), 1_000).unwrap();
    store
}

fn titles(reply: Result<Reply<aw_api::schemas::articles_schema::ArticleListResponse>, Error>) -> Vec<String> {
    let reply = reply.unwrap();
    assert_eq!(reply.status, 200);
    assert_eq!(reply.body.articles_count, reply.body.articles.len());
    reply.body.articles.into_iter().map(|a| a.title).collect()
}

#[test]
fn get_article_list_returns_a_200_if_it_success() {
    let store = Store::new();
    let response = get_articles(&store, &everything()).unwrap();
    assert_eq!(200, response.status);
    assert_eq!(response.body.articles_count, 0);
}

#[test]
fn listing_is_newest_first() {
    let store = store_with_three_articles();
    assert_eq!(titles(get_articles(&store, &everything())), vec!["Newest", "Middle", "Oldest"]);
}

#[test]
fn listing_filters_by_author_tag_and_favorite() {
    let mut store = store_with_three_articles();
    let mut params = everything();
    params.author = Some("alice".to_string());
    assert_eq!(titles(get_articles(&store, &params)), vec!["Middle", "Oldest"]);
    params.tag = Some("web".to_string());
    assert_eq!(titles(get_articles(&store, &params)), vec!["Oldest"]);
    let mut params = everything();
    params.tag = Some("rust".to_string());
    assert_eq!(titles(get_articles(&store, &params)), vec!["Middle", "Oldest"]);
    let newest_slug = store.articles()[1].slug.clone();
    favorite_articles_by_slug(&mut store, &at(&newest_slug), &acting("alice")).unwrap();
    let mut params = everything();
    params.favorited = Some("alice".to_string());
    assert_eq!(titles(get_articles(&store, &params)), vec!["Newest"]);
    params.favorited = Some("nobody".to_string());
    assert!(titles(get_articles(&store, &params)).is_empty());
}

#[test]
fn listing_pages() {
    let store = store_with_three_articles();
    let mut params = everything();
    params.limit = Some(2);
    assert_eq!(titles(get_articles(&store, &params)), vec!["Newest", "Middle"]);
    params.offset = Some(2);
    assert_eq!(titles(get_articles(&store, &params)), vec!["Oldest"]);
    params.offset = Some(7);
    assert!(titles(get_articles(&store, &params)).is_empty());
    params.offset = Some(1);
    params.limit = Some(0);
    assert!(titles(get_articles(&store, &params)).is_empty());
}

#[test]
fn listing_never_has_more_than_a_hundred() {
    let mut store = Store::new();
    add_user(&mut store, ALICE, "alice");
    for n in 0..105u128 {
        let mut article = topic(&["t"]);
        article.title = format!("Article {}", n);
        create_article_with_id(&mut store, 100 + n, article, acting("alice"), n as i64).unwrap();
    }
    let mut params = everything();
    assert_eq!(titles(get_articles(&store, &params)).len(), 20);
    params.limit = Some(1_000);
    let all = titles(get_articles(&store, &params));
    assert_eq!(all.len(), 100);
    assert_eq!(all[0], "Article 104");
    assert_eq!(all[99], "Article 5");
}

#[test]
fn get_article_feed_returns_a_200_for_invalid_payload_data() {
    let mut store = Store::new();
    add_user(&mut store, ALICE, "test_devactivity");
    let params = FeedParams { limit: Some(20), offset: Some(0) };
    let response = get_articles_feed(&store, &params, &acting("test_devactivity")).unwrap();
    assert_eq!(200, response.status);
    assert!(response.body.articles.is_empty());
}

#[test]
fn feed_shows_the_articles_of_followed_users() {
    let mut store = store_with_three_articles();
    let params = FeedParams { limit: None, offset: None };
    assert!(titles(get_articles_feed(&store, &params, &acting("bob_the_reader"))).is_empty());
    follow(&mut store, &"alice".to_string(), BOB, 4_000).unwrap();
    let reply = get_articles_feed(&store, &params, &acting("bob_the_reader")).unwrap();
    assert!(reply.body.articles.iter().all(|a| a.author.following));
    assert_eq!(
        titles(get_articles_feed(&store, &params, &acting("bob_the_reader"))),
        vec!["Middle", "Oldest"]
    );
    assert!(titles(get_articles_feed(&store, &params, &acting("alice"))).is_empty());
}

#[test]
fn feed_of_an_unknown_user_is_not_found() {
    let store = store_with_three_articles();
    let params = FeedParams { limit: None, offset: None };
    let error = get_articles_feed(&store, &params, &acting("stranger")).unwrap_err();
    assert_eq!(404, error.status_code());
    let error = get_articles_feed(&store, &params, &acting("x")).unwrap_err();
    assert_eq!(400, error.status_code());
}

#[test]
fn create_article_draws_a_new_id_each_time() {
    let mut store = Store::new();
    add_user(&mut store, ALICE, "alice");
    let first = body_of(create_article(&mut store, topic(&["a"]), acting("alice"), 1)).article.slug;
    let second = body_of(create_article(&mut store, topic(&["a"]), acting("alice"), 2)).article.slug;
    assert_ne!(first, second);
    assert_ne!(store.articles()[0].id, store.articles()[1].id);
    assert!(first.ends_with("-my-topic") && second.ends_with("-my-topic"));
    assert_eq!(first.len(), 22 + "-my-topic".len());
}

#[test]
fn articles_of_one_moment_keep_their_order() {
    let mut store = Store::new();
    add_user(&mut store, ALICE, "alice");
    for (n, title) in ["One", "Two", "Three"].iter().enumerate() {
        let mut article = topic(&["t"]);
        article.title = title.to_string();
        create_article_with_id(&mut store, 50 + n as u128, article, acting("alice"), 9).unwrap();
    }
    let mut late = topic(&["t"]);
    late.title = "Late".to_string();
    create_article_with_id(&mut store, 60, late, acting("alice"), 10).unwrap();
    assert_eq!(titles(get_articles(&store, &everything())), vec!["Late", "One", "Two", "Three"]);
}
