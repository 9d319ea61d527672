use aw_api::errors::{Details, Error};
use aw_api::routes::articles::create_article_with_id;
use aw_api::routes::comments::{
    add_articles_comments, delete_articles_comments, get_articles_comments, get_comment_response,
};
use aw_api::routes::profile::follow;
use aw_api::routes::tags::get_tags;
use aw_api::routes::users::register_with;
use aw_api::schemas::article_comment_schema::{AddComment, ArticleCommentPath};
use aw_api::schemas::articles_schema::{ArticlePath, CreateArticle, UserForArticle};
use aw_api::schemas::users_schema::{In, UserRegister};
use aw_api::store::Store;

fn member(store: &mut Store, id: u128, name: &str) {
    let form = In {
        user: UserRegister {
            username: name.to_string(),
            email: format!("{}@example.com", name),
            password: "12345678".to_string(),
        },
    };
    register_with(store, id, "stored-hash".to_string(), form, 1_000).unwrap();
}

fn who(name: &str) -> UserForArticle {
    UserForArticle { username: name.to_string() }
}

fn write_article(store: &mut Store, id: u128, title: &str, tags: &[&str]) -> ArticlePath {
    let form = CreateArticle {
        title: title.to_string(),
        description: "d".to_string(),
        body: "b".to_string(),
        tag_list: tags.iter().map(|t| t.to_string()).collect(),
    };
    let reply = create_article_with_id(store, id, form, who("alice"), 2_000).unwrap();
    ArticlePath { slug: reply.body.article.slug }
}

fn forum() -> (Store, ArticlePath) {
    let mut store = Store::new();
    member(&mut store, 1, "alice");
    member(&mut store, 2, "bob");
    let path = write_article(&mut store, 10, "Talk", &["rust"]);
    (store, path)
}

fn say(text: &str) -> AddComment {
    AddComment { body: text.to_string() }
}

#[test]
fn comments_are_numbered_in_order() {
    let (mut store, path) = forum();
    let first = add_articles_comments(&mut store, say("first"), &path, &who("bob"), 3_000).unwrap();
    assert_eq!(201, first.status);
    assert_eq!(first.body.comment.id, 1);
    assert_eq!(first.body.comment.body, "first");
    assert_eq!(first.body.comment.author.username, "bob");
    assert_eq!(first.body.comment.created_at.0, 3_000);
    let second =
        add_articles_comments(&mut store, say("second"), &path, &who("alice"), 4_000).unwrap();
    assert_eq!(second.body.comment.id, 2);
    assert_eq!(store.next_comment_id(), 3);
    let list = get_articles_comments(&store, &path, &who("bob")).unwrap();
    assert_eq!(200, list.status);
    let bodies: Vec<&str> = list.body.comments.iter().map(|c| c.body.as_str()).collect();
    assert_eq!(bodies, vec!["first", "second"]);
}

#[test]
fn comments_show_whether_the_viewer_follows_the_author() {
    let (mut store, path) = forum();
    add_articles_comments(&mut store, say("hello"), &path, &who("alice"), 3_000).unwrap();
    follow(&mut store, &"alice".to_string(), 2, 3_500).unwrap();
    let for_bob = get_articles_comments(&store, &path, &who("bob")).unwrap();
    assert!(for_bob.body.comments[0].author.following);
    let for_alice = get_articles_comments(&store, &path, &who("alice")).unwrap();
    assert!(!for_alice.body.comments[0].author.following);
    let anonymous = get_comment_response(&store, 1, None).unwrap();
    assert!(!anonymous.comment.author.following);
}

#[test]
fn comments_of_another_article_are_not_listed() {
    let (mut store, path) = forum();
    let other = write_article(&mut store, 11, "Other", &["web"]);
    add_articles_comments(&mut store, say("here"), &path, &who("bob"), 3_000).unwrap();
    add_articles_comments(&mut store, say("there"), &other, &who("bob"), 3_000).unwrap();
    let list = get_articles_comments(&store, &other, &who("alice")).unwrap();
    assert_eq!(list.body.comments.len(), 1);
    assert_eq!(list.body.comments[0].body, "there");
    assert_eq!(list.body.comments[0].id, 2);
}

#[test]
fn an_empty_comment_is_a_bad_request() {
    let (mut store, path) = forum();
    let error = add_articles_comments(&mut store, say(""), &path, &who("bob"), 3_000).unwrap_err();
    assert_eq!(400, error.status_code());
    match error {
        Error::BadRequest(Details::Invalid(errors)) => {
            assert_eq!(errors.errors.len(), 1);
            assert_eq!(errors.errors[0].field, "body");
        }
        other => panic!("unexpected error: {:?}", other),
    }
    assert!(store.comments().is_empty());
}

#[test]
fn a_comment_on_nothing_or_by_nobody_is_not_found() {
    let (mut store, path) = forum();
    let gone = ArticlePath { slug: "gone".to_string() };
    let error = add_articles_comments(&mut store, say("x"), &gone, &who("bob"), 3_000).unwrap_err();
    assert!(matches!(
        error,
        Error::NotFound(Details::Message("Record not found for the provided slug"))
    ));
    let error =
        add_articles_comments(&mut store, say("x"), &path, &who("carol"), 3_000).unwrap_err();
    assert_eq!(404, error.status_code());
    let error = get_articles_comments(&store, &gone, &who("bob")).unwrap_err();
    assert_eq!(404, error.status_code());
    let error = get_comment_response(&store, 5, None).unwrap_err();
    assert!(matches!(
        error,
        Error::NotFound(Details::Message("Record not found for the provided id"))
    ));
    assert!(store.comments().is_empty());
}

#[test]
fn only_the_commenter_deletes_a_comment() {
    let (mut store, path) = forum();
    add_articles_comments(&mut store, say("mine"), &path, &who("bob"), 3_000).unwrap();
    let target = ArticleCommentPath { slug: path.slug.clone(), comment_id: 1 };
    let error = delete_articles_comments(&mut store, &target, &who("alice")).unwrap_err();
    assert_eq!(403, error.status_code());
    assert_eq!(store.comments().len(), 1);
    let reply = delete_articles_comments(&mut store, &target, &who("bob")).unwrap();
    assert_eq!(200, reply.status);
    assert!(store.comments().is_empty());
    let error = delete_articles_comments(&mut store, &target, &who("bob")).unwrap_err();
    assert_eq!(404, error.status_code());
    let next = add_articles_comments(&mut store, say("again"), &path, &who("bob"), 4_000).unwrap();
    assert_eq!(next.body.comment.id, 2);
}

#[test]
fn get_tags_returns_a_200_if_it_success() {
    let store = Store::new();
    let response = get_tags(&store);
    assert_eq!(200, response.status);
    assert!(response.body.tags.is_empty());
}

#[test]
fn tags_are_listed_once_in_the_order_of_first_use() {
    let (mut store, _) = forum();
    write_article(&mut store, 11, "Second", &["web", "rust", "verus"]);
    write_article(&mut store, 12, "Third", &["verus", "web"]);
    let response = get_tags(&store);
    assert_eq!(response.body.tags, vec!["rust", "web", "verus"]);
}
