use aw_api::schemas::article_comment_schema::Comment;
use aw_api::schemas::article_tag_schema::ArticleTag;
use aw_api::schemas::articles_schema::{Article, Follower, NewFavoriteArticle};
use aw_api::schemas::users_schema::User;
use aw_api::store::{Store, Write};

fn user(id: u128, name: &str) -> User {
    User {
        id,
        username: name.to_string(),
        email: format!("{}@example.com", name),
        password: "hash".to_string(),
        bio: None,
        created_at: 1,
        updated_at: 1,
    }
}

fn article(id: u128, author_id: u128, slug: &str) -> Article {
    Article {
        id,
        author_id,
        slug: slug.to_string(),
        title: "t".to_string(),
        description: "d".to_string(),
        body: "b".to_string(),
        created_at: 1,
        updated_at: 1,
    }
}

fn tag(article_id: u128, name: &str) -> ArticleTag {
    ArticleTag { article_id, tag_name: name.to_string(), created_at: 1, updated_at: 1 }
}

fn comment(id: i32, article_id: u128, user_id: u128) -> Comment {
    Comment { id, article_id, user_id, body: "c".to_string(), created_at: 1, updated_at: 1 }
}

fn edge(user_id: u128, follower_id: u128) -> Follower {
    Follower { user_id, follower_id, created_at: 1, updated_at: 1 }
}

#[test]
fn unique_constraints_on_users() {
    let mut store = Store::new();
    assert!(store.insert_user(user(1, "alice")));
    assert!(!store.insert_user(user(1, "bob")));
    assert!(!store.insert_user(user(2, "alice")));
    let mut same_email = user(2, "bob");
    same_email.email = "alice@example.com".to_string();
    assert!(!store.insert_user(same_email));
    assert!(store.insert_user(user(2, "bob")));
    assert_eq!(store.users().len(), 2);
    assert_eq!(store.user_by_email(&"bob@example.com".to_string()).unwrap().id, 2);
    assert!(store.user_by_id(3).is_none());
    let mut renamed = user(2, "alice");
    renamed.email = "bob@example.com".to_string();
    assert!(!store.update_user(renamed));
    assert!(!store.update_user(user(3, "carol")));
    let mut with_bio = user(2, "bob");
    with_bio.bio = Some("bio".to_string());
    assert!(store.update_user(with_bio));
    assert_eq!(store.user_by_id(2).unwrap().bio, Some("bio".to_string()));
    assert!(store.delete_user(1));
    assert!(!store.delete_user(1));
    assert_eq!(store.users().len(), 1);
    assert_eq!(store.users()[0].username, "bob");
}

#[test]
fn unique_constraints_on_articles() {
    let mut store = Store::new();
    assert!(store.insert_article(article(10, 1, "a")));
    assert!(!store.insert_article(article(10, 1, "b")));
    assert!(!store.insert_article(article(11, 1, "a")));
    assert!(store.insert_article(article(11, 1, "b")));
    assert!(!store.update_article(article(11, 1, "a")));
    assert!(store.update_article(article(11, 1, "c")));
    assert!(store.article_by_slug(&"b".to_string()).is_none());
    assert_eq!(store.article_by_slug(&"c".to_string()).unwrap().id, 11);
    assert_eq!(store.article_by_id(10).unwrap().slug, "a");
    assert_eq!(store.articles()[1].slug, "c");
}

#[test]
fn tags_and_favorites_need_their_article() {
    let mut store = Store::new();
    assert!(!store.add_tag(tag(10, "rust")));
    assert!(!store.add_favorite(NewFavoriteArticle { user_id: 1, article_id: 10 }));
    assert!(store.journal().is_empty());
    assert!(store.insert_article(article(10, 1, "a")));
    assert!(store.add_tag(tag(10, "rust")));
    assert!(!store.add_tag(tag(10, "rust")));
    assert!(store.add_tag(tag(10, "web")));
    assert!(store.has_tag(10, &"web".to_string()));
    assert!(!store.has_tag(10, &"verus".to_string()));
    assert!(!store.has_tag(11, &"web".to_string()));
    assert_eq!(store.tag_names_of(10), vec!["rust", "web"]);
    assert!(store.add_favorite(NewFavoriteArticle { user_id: 1, article_id: 10 }));
    assert!(!store.add_favorite(NewFavoriteArticle { user_id: 1, article_id: 10 }));
    assert!(store.add_favorite(NewFavoriteArticle { user_id: 2, article_id: 10 }));
    assert_eq!(store.favorites_count(10), 2);
    assert_eq!(store.favorites_count(11), 0);
    assert!(store.has_favorite(NewFavoriteArticle { user_id: 2, article_id: 10 }));
    assert!(!store.has_favorite(NewFavoriteArticle { user_id: 10, article_id: 2 }));
}

#[test]
fn an_article_with_tags_or_favorites_stays() {
    let mut store = Store::new();
    store.insert_article(article(10, 1, "a"));
    store.insert_article(article(11, 1, "b"));
    store.add_tag(tag(10, "rust"));
    store.add_tag(tag(11, "rust"));
    store.add_favorite(NewFavoriteArticle { user_id: 1, article_id: 10 });
    store.add_favorite(NewFavoriteArticle { user_id: 1, article_id: 11 });
    assert!(!store.delete_article(10));
    store.delete_tags(10);
    assert!(!store.delete_article(10));
    store.delete_favorites(10);
    assert!(store.delete_article(10));
    assert!(!store.delete_article(10));
    assert_eq!(store.tags().len(), 1);
    assert_eq!(store.tags()[0].article_id, 11);
    assert_eq!(store.favorites().len(), 1);
    assert_eq!(store.favorites()[0].article_id, 11);
    assert!(store.remove_favorite(NewFavoriteArticle { user_id: 1, article_id: 11 }));
    assert!(!store.remove_favorite(NewFavoriteArticle { user_id: 1, article_id: 11 }));
}

#[test]
fn follow_edges() {
    let mut store = Store::new();
    assert!(store.add_follower(edge(1, 2)));
    assert!(!store.add_follower(edge(1, 2)));
    assert!(store.add_follower(edge(3, 2)));
    assert!(store.add_follower(edge(2, 1)));
    assert!(store.follows(1, 2));
    assert!(!store.follows(1, 3));
    assert_eq!(store.followed_by(2), vec![1, 3]);
    assert_eq!(store.followed_by(1), vec![2]);
    assert!(store.remove_follower(1, 2));
    assert!(!store.remove_follower(1, 2));
    assert_eq!(store.followed_by(2), vec![3]);
}

#[test]
fn comments_get_the_next_number() {
    let mut store = Store::new();
    assert_eq!(store.insert_comment(comment(77, 10, 1)), Some(1));
    assert_eq!(store.insert_comment(comment(77, 11, 1)), Some(2));
    assert_eq!(store.comment_by_id(2).unwrap().article_id, 11);
    assert!(store.comment_by_id(77).is_none());
    assert_eq!(store.comments_of(10).len(), 1);
    assert!(store.delete_comment(1));
    assert!(!store.delete_comment(1));
    assert_eq!(store.insert_comment(comment(0, 10, 1)), Some(3));
}

#[test]
fn comment_numbers_run_out() {
    let store = Store::from_rows(&vec![], &vec![], &vec![], &vec![], &vec![], &vec![], i32::MAX);
    let mut store = store.unwrap();
    assert_eq!(store.insert_comment(comment(0, 10, 1)), None);
    assert!(store.comments().is_empty());
    assert!(store.journal().is_empty());
}

#[test]
fn the_journal_records_each_write_once() {
    let mut store = Store::new();
    store.insert_user(user(1, "alice"));
    store.insert_user(user(1, "alice"));
    store.insert_article(article(10, 1, "a"));
    store.add_tag(tag(10, "rust"));
    store.add_tag(tag(10, "rust"));
    store.delete_tags(10);
    store.delete_user(9);
    let journal = store.take_journal();
    assert_eq!(journal.len(), 4);
    assert!(matches!(&journal[0], Write::InsertUser(u) if u.username == "alice"));
    assert!(matches!(&journal[1], Write::InsertArticle(a) if a.slug == "a"));
    assert!(matches!(&journal[2], Write::InsertTag(t) if t.tag_name == "rust"));
    assert!(matches!(&journal[3], Write::DeleteTags(10)));
    assert!(store.journal().is_empty());
    assert_eq!(store.users().len(), 1);
    store.delete_user(1);
    assert_eq!(store.journal().len(), 1);
}

#[test]
fn loading_checks_the_constraints() {
    let users = vec![user(1, "alice"), user(2, "bob")];
    let articles = vec![article(10, 1, "a"), article(11, 2, "b")];
    let tags = vec![tag(10, "rust"), tag(11, "rust")];
    let favorites = vec![NewFavoriteArticle { user_id: 2, article_id: 10 }];
    let followers = vec![edge(1, 2)];
    let comments = vec![comment(3, 10, 2), comment(1, 10, 1)];
    let store =
        Store::from_rows(&users, &articles, &tags, &favorites, &followers, &comments, 4).unwrap();
    assert!(store.journal().is_empty());
    assert_eq!(store.users().len(), 2);
    assert_eq!(store.articles()[1].slug, "b");
    assert_eq!(store.tags().len(), 2);
    assert_eq!(store.favorites_count(10), 1);
    assert!(store.follows(1, 2));
    assert_eq!(store.comments()[0].id, 3);
    assert_eq!(store.next_comment_id(), 4);

    let load = |users: &Vec<User>,
                articles: &Vec<Article>,
                tags: &Vec<ArticleTag>,
                favorites: &Vec<NewFavoriteArticle>,
                followers: &Vec<Follower>,
                comments: &Vec<Comment>,
                next: i32| {
        Store::from_rows(users, articles, tags, favorites, followers, comments, next).is_some()
    };
    assert!(!load(&vec![user(1, "alice"), user(1, "bob")], &articles, &tags, &favorites, &followers, &comments, 4));
    assert!(!load(&vec![user(1, "alice"), user(2, "alice")], &articles, &tags, &favorites, &followers, &comments, 4));
    assert!(!load(&users, &vec![article(10, 1, "a"), article(11, 2, "a")], &vec![], &vec![], &followers, &comments, 4));
    assert!(!load(&users, &articles, &vec![tag(10, "rust"), tag(10, "rust")], &favorites, &followers, &comments, 4));
    assert!(!load(&users, &articles, &vec![tag(12, "rust")], &favorites, &followers, &comments, 4));
    assert!(!load(&users, &articles, &tags, &vec![favorites[0], favorites[0]], &followers, &comments, 4));
    assert!(!load(&users, &articles, &tags, &vec![NewFavoriteArticle { user_id: 2, article_id: 12 }], &followers, &comments, 4));
    assert!(!load(&users, &articles, &tags, &favorites, &vec![edge(1, 2), edge(1, 2)], &comments, 4));
    assert!(!load(&users, &articles, &tags, &favorites, &followers, &vec![comment(1, 10, 2), comment(1, 11, 2)], 4));
    assert!(!load(&users, &articles, &tags, &favorites, &followers, &comments, 3));
}
