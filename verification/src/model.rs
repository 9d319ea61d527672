//! The relational model that every contract of this crate is stated over.
//!
//! A table is a sequence of rows in insertion order. [`Tables`] holds the six
//! tables of the backend together with the journal of the writes that led to
//! them. Nothing here is executable.

use vstd::prelude::*;

verus! {

/// A row of `users`.
pub struct UserRow {
    pub id: u128,
    pub username: Seq<char>,
    pub email: Seq<char>,
    pub password: Seq<char>,
    pub bio: Option<Seq<char>>,
    pub created_at: i64,
    pub updated_at: i64,
}

/// A row of `articles`.
pub struct ArticleRow {
    pub id: u128,
    pub author_id: u128,
    pub slug: Seq<char>,
    pub title: Seq<char>,
    pub description: Seq<char>,
    pub body: Seq<char>,
    pub created_at: i64,
    pub updated_at: i64,
}

/// A row of `article_tags`.
pub struct TagRow {
    pub article_id: u128,
    pub tag_name: Seq<char>,
    pub created_at: i64,
    pub updated_at: i64,
}

/// A row of `favorite_articles`: `user_id` has favorited `article_id`.
pub struct FavoriteRow {
    pub user_id: u128,
    pub article_id: u128,
}

/// A row of `followers`: `follower_id` follows `user_id`.
pub struct FollowerRow {
    pub user_id: u128,
    pub follower_id: u128,
    pub created_at: i64,
    pub updated_at: i64,
}

/// A row of `comments`.
pub struct CommentRow {
    pub id: i32,
    pub article_id: u128,
    pub user_id: u128,
    pub body: Seq<char>,
    pub created_at: i64,
    pub updated_at: i64,
}

/// One write to the store, as the journal records it.
pub enum WriteRow {
    InsertUser(UserRow),
    UpdateUser(UserRow),
    DeleteUser(u128),
    InsertArticle(ArticleRow),
    UpdateArticle(ArticleRow),
    DeleteArticle(u128),
    InsertTag(TagRow),
    DeleteTags(u128),
    InsertFavorite(FavoriteRow),
    DeleteFavorite(FavoriteRow),
    DeleteFavorites(u128),
    InsertFollower(FollowerRow),
    DeleteFollower(u128, u128),
    InsertComment(CommentRow),
    DeleteComment(i32),
}

/// A public profile as one viewer sees it.
pub struct ProfileDoc {
    pub username: Seq<char>,
    pub bio: Option<Seq<char>>,
    pub following: bool,
}

/// An article with its author, tags and favorite count, as one viewer sees it.
pub struct ArticleDoc {
    pub slug: Seq<char>,
    pub title: Seq<char>,
    pub description: Seq<char>,
    pub body: Seq<char>,
    pub tag_list: Seq<Seq<char>>,
    pub created_at: i64,
    pub updated_at: i64,
    pub favorited: bool,
    pub favorites_count: nat,
    pub author: ProfileDoc,
}

/// A comment with its author, as one viewer sees it.
pub struct CommentDoc {
    pub id: i32,
    pub created_at: i64,
    pub updated_at: i64,
    pub body: Seq<char>,
    pub author: ProfileDoc,
}

/// The text that an optional string holds.
pub open spec fn text_of(o: Option<String>) -> Option<Seq<char>> {
    match o {
        Some(s) => Some(s@),
        None => None,
    }
}

/// The views of the elements of a sequence, in the same order.
pub open spec fn rows<T: View>(s: Seq<T>) -> Seq<T::V> {
    s.map_values(|x: T| x@)
}

/// The elements of `s`, each once, in the order in which they first occur.
pub open spec fn distinct<T>(s: Seq<T>) -> Seq<T>
    decreases s.len(),
{
    if s.len() == 0 {
        Seq::empty()
    } else {
        let before = distinct(s.drop_last());
        if before.contains(s.last()) {
            before
        } else {
            before.push(s.last())
        }
    }
}

/// Puts `a` into a sequence that has its newest article first: behind the
/// articles that are as new or newer, before those that are older.
pub open spec fn insert_newest_first(sorted: Seq<ArticleRow>, a: ArticleRow) -> Seq<ArticleRow>
    decreases sorted.len(),
{
    if sorted.len() == 0 {
        seq![a]
    } else if sorted.last().created_at >= a.created_at {
        sorted.push(a)
    } else {
        insert_newest_first(sorted.drop_last(), a).push(sorted.last())
    }
}

/// The articles with the newest first; articles of the same moment keep
/// their order.
pub open spec fn newest_first(s: Seq<ArticleRow>) -> Seq<ArticleRow>
    decreases s.len(),
{
    if s.len() == 0 {
        Seq::empty()
    } else {
        insert_newest_first(newest_first(s.drop_last()), s.last())
    }
}

/// Whether no element of the sequence is newer than one before it.
pub open spec fn is_newest_first(s: Seq<ArticleRow>) -> bool {
    forall|i: int, j: int|
        0 <= i < j < s.len() ==> (#[trigger] s[i]).created_at >= (#[trigger] s[j]).created_at
}

/// The page of `s` that starts behind `offset` elements and has at most
/// `limit` elements.
pub open spec fn page<T>(s: Seq<T>, offset: nat, limit: nat) -> Seq<T> {
    let from = if offset <= s.len() {
        offset
    } else {
        s.len()
    };
    let to = if offset + limit <= s.len() {
        offset + limit
    } else {
        s.len()
    };
    s.subrange(from as int, to as int)
}

/// The filters of an article listing. An absent filter lets every article
/// pass.
pub struct Filters {
    pub tag: Option<Seq<char>>,
    pub author: Option<Seq<char>>,
    pub favorited: Option<Seq<char>>,
}

/// The first element of `s` that satisfies `p`, if there is one.
pub open spec fn first_match<T>(s: Seq<T>, p: spec_fn(T) -> bool) -> Option<T> {
    if exists|i: int| 0 <= i < s.len() && #[trigger] p(s[i]) {
        let i = choose|i: int|
            0 <= i < s.len() && #[trigger] p(s[i]) && forall|j: int|
                0 <= j < i ==> !#[trigger] p(s[j]);
        Some(s[i])
    } else {
        None
    }
}

// ----------------------------------------------------------------------
// The conditions that the tables are searched and filtered by
// ----------------------------------------------------------------------

pub open spec fn user_named(username: Seq<char>) -> spec_fn(UserRow) -> bool {
    |u: UserRow| u.username == username
}

pub open spec fn user_with_email(email: Seq<char>) -> spec_fn(UserRow) -> bool {
    |u: UserRow| u.email == email
}

pub open spec fn user_is(id: u128) -> spec_fn(UserRow) -> bool {
    |u: UserRow| u.id == id
}

pub open spec fn user_is_not(id: u128) -> spec_fn(UserRow) -> bool {
    |u: UserRow| u.id != id
}

/// Puts `u` in the place of the row with its id.
pub open spec fn put_user(u: UserRow) -> spec_fn(UserRow) -> UserRow {
    |r: UserRow| if r.id == u.id { u } else { r }
}

pub open spec fn article_with_slug(slug: Seq<char>) -> spec_fn(ArticleRow) -> bool {
    |a: ArticleRow| a.slug == slug
}

pub open spec fn article_is(id: u128) -> spec_fn(ArticleRow) -> bool {
    |a: ArticleRow| a.id == id
}

pub open spec fn article_is_not(id: u128) -> spec_fn(ArticleRow) -> bool {
    |a: ArticleRow| a.id != id
}

/// Puts `a` in the place of the row with its id.
pub open spec fn put_article(a: ArticleRow) -> spec_fn(ArticleRow) -> ArticleRow {
    |r: ArticleRow| if r.id == a.id { a } else { r }
}

pub open spec fn tag_of(article_id: u128) -> spec_fn(TagRow) -> bool {
    |t: TagRow| t.article_id == article_id
}

pub open spec fn tag_not_of(article_id: u128) -> spec_fn(TagRow) -> bool {
    |t: TagRow| t.article_id != article_id
}

pub open spec fn tag_name() -> spec_fn(TagRow) -> Seq<char> {
    |t: TagRow| t.tag_name
}

pub open spec fn favorite_of(article_id: u128) -> spec_fn(FavoriteRow) -> bool {
    |f: FavoriteRow| f.article_id == article_id
}

pub open spec fn favorite_not_of(article_id: u128) -> spec_fn(FavoriteRow) -> bool {
    |f: FavoriteRow| f.article_id != article_id
}

pub open spec fn favorite_is_not(f: FavoriteRow) -> spec_fn(FavoriteRow) -> bool {
    |r: FavoriteRow| r != f
}

pub open spec fn edge_is_not(user_id: u128, follower_id: u128) -> spec_fn(FollowerRow) -> bool {
    |r: FollowerRow| !(r.user_id == user_id && r.follower_id == follower_id)
}

pub open spec fn edge_from(follower_id: u128) -> spec_fn(FollowerRow) -> bool {
    |r: FollowerRow| r.follower_id == follower_id
}

pub open spec fn followee() -> spec_fn(FollowerRow) -> u128 {
    |r: FollowerRow| r.user_id
}

pub open spec fn comment_on(article_id: u128) -> spec_fn(CommentRow) -> bool {
    |c: CommentRow| c.article_id == article_id
}

pub open spec fn comment_is(id: i32) -> spec_fn(CommentRow) -> bool {
    |c: CommentRow| c.id == id
}

pub open spec fn comment_is_not(id: i32) -> spec_fn(CommentRow) -> bool {
    |c: CommentRow| c.id != id
}

/// The state of the store: its tables, the next comment number, and the
/// journal of writes.
pub struct Tables {
    pub users: Seq<UserRow>,
    pub articles: Seq<ArticleRow>,
    pub tags: Seq<TagRow>,
    pub favorites: Seq<FavoriteRow>,
    pub followers: Seq<FollowerRow>,
    pub comments: Seq<CommentRow>,
    pub next_comment_id: i32,
    pub journal: Seq<WriteRow>,
}

impl Tables {
    /// The store with no rows and an empty journal.
    pub open spec fn empty() -> Tables {
        Tables {
            users: Seq::empty(),
            articles: Seq::empty(),
            tags: Seq::empty(),
            favorites: Seq::empty(),
            followers: Seq::empty(),
            comments: Seq::empty(),
            next_comment_id: 1,
            journal: Seq::empty(),
        }
    }

    // ------------------------------------------------------------------
    // The unique constraints
    // ------------------------------------------------------------------

    /// No two users share an id, a username or an email.
    pub open spec fn users_unique(self) -> bool {
        forall|i: int, j: int|
            0 <= i < j < self.users.len() ==> {
                &&& (#[trigger] self.users[i]).id != (#[trigger] self.users[j]).id
                &&& self.users[i].username != self.users[j].username
                &&& self.users[i].email != self.users[j].email
            }
    }

    /// No two articles share an id or a slug.
    pub open spec fn articles_unique(self) -> bool {
        forall|i: int, j: int|
            0 <= i < j < self.articles.len() ==> {
                &&& (#[trigger] self.articles[i]).id != (#[trigger] self.articles[j]).id
                &&& self.articles[i].slug != self.articles[j].slug
            }
    }

    /// No article carries the same tag twice.
    pub open spec fn tags_unique(self) -> bool {
        forall|i: int, j: int|
            0 <= i < j < self.tags.len() ==> !({
                &&& (#[trigger] self.tags[i]).article_id == (#[trigger] self.tags[j]).article_id
                &&& self.tags[i].tag_name == self.tags[j].tag_name
            })
    }

    /// No favorite edge occurs twice.
    pub open spec fn favorites_unique(self) -> bool {
        forall|i: int, j: int|
            0 <= i < j < self.favorites.len() ==> #[trigger] self.favorites[i]
                != #[trigger] self.favorites[j]
    }

    /// No follow edge occurs twice.
    pub open spec fn followers_unique(self) -> bool {
        forall|i: int, j: int|
            0 <= i < j < self.followers.len() ==> !({
                &&& (#[trigger] self.followers[i]).user_id == (#[trigger] self.followers[j]).user_id
                &&& self.followers[i].follower_id == self.followers[j].follower_id
            })
    }

    /// No two comments share a number, and every number has been handed out.
    pub open spec fn comments_unique(self) -> bool {
        &&& forall|i: int, j: int|
            0 <= i < j < self.comments.len() ==> (#[trigger] self.comments[i]).id
                != (#[trigger] self.comments[j]).id
        &&& forall|i: int|
            0 <= i < self.comments.len() ==> (#[trigger] self.comments[i]).id
                < self.next_comment_id
    }

    /// Every tag belongs to an article of the store.
    pub open spec fn tags_refer(self) -> bool {
        forall|i: int|
            0 <= i < self.tags.len() ==> self.article_with_id(
                (#[trigger] self.tags[i]).article_id,
            ) is Some
    }

    /// Every favorite edge ends at an article of the store.
    pub open spec fn favorites_refer(self) -> bool {
        forall|i: int|
            0 <= i < self.favorites.len() ==> self.article_with_id(
                (#[trigger] self.favorites[i]).article_id,
            ) is Some
    }

    /// The constraints of the store all hold: the unique constraints of the
    /// six tables, and that tags and favorites belong to stored articles.
    pub open spec fn wf(self) -> bool {
        &&& self.users_unique()
        &&& self.articles_unique()
        &&& self.tags_unique()
        &&& self.favorites_unique()
        &&& self.followers_unique()
        &&& self.comments_unique()
        &&& self.tags_refer()
        &&& self.favorites_refer()
    }

    // ------------------------------------------------------------------
    // users
    // ------------------------------------------------------------------

    pub open spec fn user_named(self, username: Seq<char>) -> Option<UserRow> {
        first_match(self.users, user_named(username))
    }

    pub open spec fn user_with_email(self, email: Seq<char>) -> Option<UserRow> {
        first_match(self.users, user_with_email(email))
    }

    pub open spec fn user_with_id(self, id: u128) -> Option<UserRow> {
        first_match(self.users, user_is(id))
    }

    /// Whether `u` can be inserted without breaking a unique constraint.
    pub open spec fn admits_user(self, u: UserRow) -> bool {
        &&& self.user_with_id(u.id) is None
        &&& self.user_named(u.username) is None
        &&& self.user_with_email(u.email) is None
    }

    pub open spec fn insert_user(self, u: UserRow) -> Tables {
        Tables {
            users: self.users.push(u),
            journal: self.journal.push(WriteRow::InsertUser(u)),
            ..self
        }
    }

    /// Whether the user with `u`'s id can be replaced by `u`.
    pub open spec fn admits_user_update(self, u: UserRow) -> bool {
        &&& self.user_with_id(u.id) is Some
        &&& forall|i: int|
            0 <= i < self.users.len() && (#[trigger] self.users[i]).id != u.id ==> {
                &&& self.users[i].username != u.username
                &&& self.users[i].email != u.email
            }
    }

    pub open spec fn update_user(self, u: UserRow) -> Tables {
        Tables {
            users: self.users.map_values(put_user(u)),
            journal: self.journal.push(WriteRow::UpdateUser(u)),
            ..self
        }
    }

    pub open spec fn delete_user(self, id: u128) -> Tables {
        Tables {
            users: self.users.filter(user_is_not(id)),
            journal: self.journal.push(WriteRow::DeleteUser(id)),
            ..self
        }
    }

    // ------------------------------------------------------------------
    // articles
    // ------------------------------------------------------------------

    pub open spec fn article_with_slug(self, slug: Seq<char>) -> Option<ArticleRow> {
        first_match(self.articles, article_with_slug(slug))
    }

    pub open spec fn article_with_id(self, id: u128) -> Option<ArticleRow> {
        first_match(self.articles, article_is(id))
    }

    pub open spec fn admits_article(self, a: ArticleRow) -> bool {
        &&& self.article_with_id(a.id) is None
        &&& self.article_with_slug(a.slug) is None
    }

    pub open spec fn insert_article(self, a: ArticleRow) -> Tables {
        Tables {
            articles: self.articles.push(a),
            journal: self.journal.push(WriteRow::InsertArticle(a)),
            ..self
        }
    }

    /// Whether the article with `a`'s id can be replaced by `a`.
    pub open spec fn admits_article_update(self, a: ArticleRow) -> bool {
        &&& self.article_with_id(a.id) is Some
        &&& forall|i: int|
            0 <= i < self.articles.len() && (#[trigger] self.articles[i]).id != a.id
                ==> self.articles[i].slug != a.slug
    }

    pub open spec fn update_article(self, a: ArticleRow) -> Tables {
        Tables {
            articles: self.articles.map_values(put_article(a)),
            journal: self.journal.push(WriteRow::UpdateArticle(a)),
            ..self
        }
    }

    /// Whether the article `id` is there and can go: no tag and no favorite
    /// refers to it.
    pub open spec fn admits_article_delete(self, id: u128) -> bool {
        &&& self.article_with_id(id) is Some
        &&& forall|i: int| 0 <= i < self.tags.len() ==> (#[trigger] self.tags[i]).article_id != id
        &&& forall|i: int|
            0 <= i < self.favorites.len() ==> (#[trigger] self.favorites[i]).article_id != id
    }

    pub open spec fn delete_article(self, id: u128) -> Tables {
        Tables {
            articles: self.articles.filter(article_is_not(id)),
            journal: self.journal.push(WriteRow::DeleteArticle(id)),
            ..self
        }
    }

    // ------------------------------------------------------------------
    // article_tags
    // ------------------------------------------------------------------

    /// The tag rows of an article, in table order.
    pub open spec fn tags_of(self, article_id: u128) -> Seq<TagRow> {
        self.tags.filter(tag_of(article_id))
    }

    /// The tag names of an article, in table order.
    pub open spec fn tag_names_of(self, article_id: u128) -> Seq<Seq<char>> {
        self.tags_of(article_id).map_values(tag_name())
    }

    pub open spec fn has_tag(self, article_id: u128, tag_name: Seq<char>) -> bool {
        exists|i: int|
            0 <= i < self.tags.len() && (#[trigger] self.tags[i]).article_id == article_id
                && self.tags[i].tag_name == tag_name
    }

    pub open spec fn delete_tags(self, article_id: u128) -> Tables {
        Tables {
            tags: self.tags.filter(tag_not_of(article_id)),
            journal: self.journal.push(WriteRow::DeleteTags(article_id)),
            ..self
        }
    }

    /// Inserts a tag row; a row that is already there is left alone, and so
    /// is a row for an article that is not there.
    /// Whether the tag row would come in: its article is there and does not
    /// carry the tag yet.
    pub open spec fn admits_tag(self, t: TagRow) -> bool {
        self.article_with_id(t.article_id) is Some && !self.has_tag(t.article_id, t.tag_name)
    }

    pub open spec fn add_tag(self, t: TagRow) -> Tables {
        if !self.admits_tag(t) {
            self
        } else {
            Tables {
                tags: self.tags.push(t),
                journal: self.journal.push(WriteRow::InsertTag(t)),
                ..self
            }
        }
    }

    /// Inserts one tag row per name, in order, skipping names already there.
    pub open spec fn add_tags(self, article_id: u128, names: Seq<Seq<char>>, now: i64) -> Tables
        decreases names.len(),
    {
        if names.len() == 0 {
            self
        } else {
            self.add_tags(article_id, names.drop_last(), now).add_tag(
                TagRow {
                    article_id,
                    tag_name: names.last(),
                    created_at: now,
                    updated_at: now,
                },
            )
        }
    }

    /// Makes `names` the tag set of the article: the old rows go, then one row
    /// per distinct name comes in.
    pub open spec fn replace_tags(self, article_id: u128, names: Seq<Seq<char>>, now: i64) -> Tables {
        self.delete_tags(article_id).add_tags(article_id, names, now)
    }

    // ------------------------------------------------------------------
    // favorite_articles
    // ------------------------------------------------------------------

    pub open spec fn favorites_of(self, article_id: u128) -> Seq<FavoriteRow> {
        self.favorites.filter(favorite_of(article_id))
    }

    pub open spec fn favorites_count(self, article_id: u128) -> nat {
        self.favorites_of(article_id).len()
    }

    pub open spec fn has_favorite(self, f: FavoriteRow) -> bool {
        self.favorites.contains(f)
    }

    /// Inserts a favorite edge; an edge that is already there is left alone,
    /// and so is an edge to an article that is not there.
    /// Whether the edge would come in: its article is there and the edge is
    /// not.
    pub open spec fn admits_favorite(self, f: FavoriteRow) -> bool {
        self.article_with_id(f.article_id) is Some && !self.has_favorite(f)
    }

    pub open spec fn add_favorite(self, f: FavoriteRow) -> Tables {
        if !self.admits_favorite(f) {
            self
        } else {
            Tables {
                favorites: self.favorites.push(f),
                journal: self.journal.push(WriteRow::InsertFavorite(f)),
                ..self
            }
        }
    }

    pub open spec fn remove_favorite(self, f: FavoriteRow) -> Tables {
        Tables {
            favorites: self.favorites.filter(favorite_is_not(f)),
            journal: self.journal.push(WriteRow::DeleteFavorite(f)),
            ..self
        }
    }

    pub open spec fn delete_favorites(self, article_id: u128) -> Tables {
        Tables {
            favorites: self.favorites.filter(favorite_not_of(article_id)),
            journal: self.journal.push(WriteRow::DeleteFavorites(article_id)),
            ..self
        }
    }

    // ------------------------------------------------------------------
    // followers
    // ------------------------------------------------------------------

    /// Whether `follower_id` follows `user_id`.
    pub open spec fn follows(self, user_id: u128, follower_id: u128) -> bool {
        exists|i: int|
            0 <= i < self.followers.len() && (#[trigger] self.followers[i]).user_id == user_id
                && self.followers[i].follower_id == follower_id
    }

    /// Inserts a follow edge; an edge that is already there is left alone.
    pub open spec fn add_follower(self, f: FollowerRow) -> Tables {
        if self.follows(f.user_id, f.follower_id) {
            self
        } else {
            Tables {
                followers: self.followers.push(f),
                journal: self.journal.push(WriteRow::InsertFollower(f)),
                ..self
            }
        }
    }

    pub open spec fn remove_follower(self, user_id: u128, follower_id: u128) -> Tables {
        Tables {
            followers: self.followers.filter(edge_is_not(user_id, follower_id)),
            journal: self.journal.push(WriteRow::DeleteFollower(user_id, follower_id)),
            ..self
        }
    }

    /// The ids of the users that `follower_id` follows, in table order.
    pub open spec fn followed_by(self, follower_id: u128) -> Seq<u128> {
        self.followers.filter(edge_from(follower_id)).map_values(followee())
    }

    // ------------------------------------------------------------------
    // comments
    // ------------------------------------------------------------------

    pub open spec fn comments_of(self, article_id: u128) -> Seq<CommentRow> {
        self.comments.filter(comment_on(article_id))
    }

    pub open spec fn comment_with_id(self, id: i32) -> Option<CommentRow> {
        first_match(self.comments, comment_is(id))
    }

    /// Whether another comment number can be handed out.
    pub open spec fn admits_comment(self) -> bool {
        self.next_comment_id < i32::MAX
    }

    /// Inserts `c` under the next comment number.
    pub open spec fn insert_comment(self, c: CommentRow) -> Tables {
        let row = CommentRow { id: self.next_comment_id, ..c };
        Tables {
            comments: self.comments.push(row),
            next_comment_id: (self.next_comment_id + 1) as i32,
            journal: self.journal.push(WriteRow::InsertComment(row)),
            ..self
        }
    }

    pub open spec fn delete_comment(self, id: i32) -> Tables {
        Tables {
            comments: self.comments.filter(comment_is_not(id)),
            journal: self.journal.push(WriteRow::DeleteComment(id)),
            ..self
        }
    }
}

impl Tables {
    // ------------------------------------------------------------------
    // What a viewer sees
    // ------------------------------------------------------------------

    /// The profile of `u` as `viewer` sees it. Nobody follows anybody in the
    /// eyes of an anonymous viewer.
    pub open spec fn profile_doc(self, u: UserRow, viewer: Option<u128>) -> ProfileDoc {
        ProfileDoc {
            username: u.username,
            bio: u.bio,
            following: viewer matches Some(v) && self.follows(u.id, v),
        }
    }

    /// The profile of the user `username` as `viewer` sees it.
    pub open spec fn profile_of(self, username: Seq<char>, viewer: Option<u128>) -> Option<
        ProfileDoc,
    > {
        match self.user_named(username) {
            Some(u) => Some(self.profile_doc(u, viewer)),
            None => None,
        }
    }

    /// The article `a` by `author` as `viewer` sees it.
    pub open spec fn article_doc_of(
        self,
        a: ArticleRow,
        author: UserRow,
        viewer: Option<u128>,
    ) -> ArticleDoc {
        ArticleDoc {
            slug: a.slug,
            title: a.title,
            description: a.description,
            body: a.body,
            tag_list: self.tag_names_of(a.id),
            created_at: a.created_at,
            updated_at: a.updated_at,
            favorited: viewer matches Some(v) && self.has_favorite(
                FavoriteRow { user_id: v, article_id: a.id },
            ),
            favorites_count: self.favorites_count(a.id),
            author: self.profile_doc(author, viewer),
        }
    }

    /// The article under `slug`, joined with its author, as `viewer` sees it:
    /// `None` where there is no such article or its author is not stored.
    pub open spec fn article_doc(self, slug: Seq<char>, viewer: Option<u128>) -> Option<
        ArticleDoc,
    > {
        match self.article_with_slug(slug) {
            Some(a) => match self.user_with_id(a.author_id) {
                Some(author) => Some(self.article_doc_of(a, author, viewer)),
                None => None,
            },
            None => None,
        }
    }

    /// The articles under `slugs` as `viewer` sees them, in the same order:
    /// `None` where one of them cannot be seen.
    pub open spec fn article_docs(self, slugs: Seq<Seq<char>>, viewer: Option<u128>) -> Option<
        Seq<ArticleDoc>,
    > {
        if forall|i: int| 0 <= i < slugs.len() ==> self.article_doc(#[trigger] slugs[i], viewer) is Some {
            Some(Seq::new(slugs.len(), |i: int| self.article_doc(slugs[i], viewer)->0))
        } else {
            None
        }
    }

    /// The comment `c` as `viewer` sees it: `None` where its author is not
    /// stored.
    pub open spec fn comment_doc_of(self, c: CommentRow, viewer: Option<u128>) -> Option<
        CommentDoc,
    > {
        match self.user_with_id(c.user_id) {
            Some(author) => Some(
                CommentDoc {
                    id: c.id,
                    created_at: c.created_at,
                    updated_at: c.updated_at,
                    body: c.body,
                    author: self.profile_doc(author, viewer),
                },
            ),
            None => None,
        }
    }

    /// The comment number `id` as `viewer` sees it.
    pub open spec fn comment_doc(self, id: i32, viewer: Option<u128>) -> Option<CommentDoc> {
        match self.comment_with_id(id) {
            Some(c) => self.comment_doc_of(c, viewer),
            None => None,
        }
    }

    /// The comments numbered `ids` as `viewer` sees them, in the same order:
    /// `None` where one of them cannot be seen.
    pub open spec fn comment_docs(self, ids: Seq<i32>, viewer: Option<u128>) -> Option<
        Seq<CommentDoc>,
    > {
        if forall|i: int| 0 <= i < ids.len() ==> self.comment_doc(#[trigger] ids[i], viewer) is Some {
            Some(Seq::new(ids.len(), |i: int| self.comment_doc(ids[i], viewer)->0))
        } else {
            None
        }
    }

    /// The tag names in use, each once, in the order in which they first
    /// occur in the table.
    pub open spec fn all_tag_names(self) -> Seq<Seq<char>> {
        distinct(self.tags.map_values(tag_name()))
    }

    /// Whether an article passes the filters: it is by the author of that
    /// name, the user of that name has favorited it, and it has the tag.
    pub open spec fn passes(self, a: ArticleRow, filters: Filters) -> bool {
        &&& filters.author matches Some(name) ==> (self.user_with_id(a.author_id) matches Some(
            author,
        ) && author.username == name)
        &&& filters.favorited matches Some(name) ==> (self.user_named(name) matches Some(fan)
            && self.has_favorite(FavoriteRow { user_id: fan.id, article_id: a.id }))
        &&& filters.tag matches Some(tag) ==> self.has_tag(a.id, tag)
    }

    pub open spec fn passing(self, filters: Filters) -> spec_fn(ArticleRow) -> bool {
        |a: ArticleRow| self.passes(a, filters)
    }

    /// A page of the articles that pass the filters, newest first.
    pub open spec fn listing(self, filters: Filters, offset: nat, limit: nat) -> Seq<ArticleRow> {
        page(newest_first(self.articles.filter(self.passing(filters))), offset, limit)
    }

    pub open spec fn by_one_of(authors: Seq<u128>) -> spec_fn(ArticleRow) -> bool {
        |a: ArticleRow| authors.contains(a.author_id)
    }

    /// A page of the articles by the users that `follower_id` follows, newest
    /// first.
    pub open spec fn feed(self, follower_id: u128, offset: nat, limit: nat) -> Seq<ArticleRow> {
        page(
            newest_first(self.articles.filter(Self::by_one_of(self.followed_by(follower_id)))),
            offset,
            limit,
        )
    }

    // ------------------------------------------------------------------
    // Writes of more than one step
    // ------------------------------------------------------------------

    /// Stores a new article and makes `tags` its tag set.
    pub open spec fn create_article(self, a: ArticleRow, tags: Seq<Seq<char>>, now: i64) -> Tables {
        self.insert_article(a).replace_tags(a.id, tags, now)
    }

    /// Writes the article row `a` over the one with its id and, where `tags`
    /// is given, makes it the tag set.
    pub open spec fn rewrite_article(
        self,
        a: ArticleRow,
        tags: Option<Seq<Seq<char>>>,
        now: i64,
    ) -> Tables {
        match tags {
            Some(names) => self.update_article(a).replace_tags(a.id, names, now),
            None => self.update_article(a),
        }
    }

    /// Deletes an article with its tags and its favorite edges.
    pub open spec fn remove_article(self, id: u128) -> Tables {
        self.delete_tags(id).delete_favorites(id).delete_article(id)
    }
}

/// The views of a sequence with one more element.
pub proof fn lemma_rows_push<T: View>(s: Seq<T>, x: T)
    ensures
        rows(s.push(x)) == rows(s).push(x@),
{
    assert(rows(s.push(x)) =~= rows(s).push(x@));
}

/// Filtering one element more of a sequence.
pub proof fn lemma_filter_step<T>(s: Seq<T>, p: spec_fn(T) -> bool, i: int)
    requires
        0 <= i < s.len(),
    ensures
        s.take(i + 1).filter(p) == if p(s[i]) {
            s.take(i).filter(p).push(s[i])
        } else {
            s.take(i).filter(p)
        },
{
    assert(s.take(i + 1) =~= s.take(i).push(s[i]));
    s.take(i).lemma_filter_push(s[i], p);
}

/// Where the elements that pass a filter stood: their positions in the
/// sequence, in rising order.
pub proof fn lemma_filter_positions<T>(s: Seq<T>, p: spec_fn(T) -> bool) -> (at: Seq<int>)
    ensures
        at.len() == s.filter(p).len(),
        forall|a: int|
            0 <= a < at.len() ==> 0 <= #[trigger] at[a] < s.len() && s.filter(p)[a] == s[at[a]]
                && p(s[at[a]]),
        forall|a: int, b: int| 0 <= a < b < at.len() ==> #[trigger] at[a] < #[trigger] at[b],
    decreases s.len(),
{
    reveal(Seq::filter);
    if s.len() == 0 {
        Seq::empty()
    } else {
        let before = lemma_filter_positions(s.drop_last(), p);
        if p(s.last()) {
            before.push(s.len() - 1)
        } else {
            before
        }
    }
}

/// An element passes a filter exactly if it is in the sequence and satisfies
/// the predicate.
pub proof fn lemma_filter_member<T>(s: Seq<T>, p: spec_fn(T) -> bool, x: T)
    ensures
        s.filter(p).contains(x) <==> s.contains(x) && p(x),
    decreases s.len(),
{
    reveal(Seq::filter);
    if s.len() == 0 {
    } else {
        lemma_filter_member(s.drop_last(), p, x);
        let rest = s.drop_last().filter(p);
        if s.filter(p).contains(x) {
            let k = choose|k: int| 0 <= k < s.filter(p).len() && s.filter(p)[k] == x;
            if p(s.last()) && k == rest.len() {
                assert(s[s.len() - 1] == x);
            } else {
                assert(rest[k] == x);
                let j = choose|j: int| 0 <= j < s.drop_last().len() && s.drop_last()[j] == x;
                assert(s[j] == x);
            }
        }
        if s.contains(x) && p(x) {
            let j = choose|j: int| 0 <= j < s.len() && s[j] == x;
            if j == s.len() - 1 {
                assert(s.filter(p)[rest.len() as int] == x);
            } else {
                assert(s.drop_last()[j] == x);
                let k = choose|k: int| 0 <= k < rest.len() && rest[k] == x;
                assert(s.filter(p)[k] == x);
            }
        }
    }
}

/// Where nothing from position `at` on is as new as `a`, and the element
/// before `at` is, `a` goes in at `at`.
pub proof fn lemma_insert_newest_first_at(sorted: Seq<ArticleRow>, a: ArticleRow, at: int)
    requires
        0 <= at <= sorted.len(),
        forall|j: int| at <= j < sorted.len() ==> (#[trigger] sorted[j]).created_at < a.created_at,
        at > 0 ==> sorted[at - 1].created_at >= a.created_at,
    ensures
        insert_newest_first(sorted, a) == sorted.insert(at, a),
    decreases sorted.len(),
{
    if sorted.len() == 0 {
        assert(seq![a] =~= sorted.insert(at, a));
    } else if at == sorted.len() {
        assert(sorted.push(a) =~= sorted.insert(at, a));
    } else {
        assert(sorted[sorted.len() - 1].created_at < a.created_at);
        lemma_insert_newest_first_at(sorted.drop_last(), a, at);
        assert(sorted.drop_last().insert(at, a).push(sorted.last()) =~= sorted.insert(at, a));
    }
}

/// Putting an article into a sequence that has its newest first leaves the
/// newest first, and adds just that article.
pub proof fn lemma_insert_newest_first(sorted: Seq<ArticleRow>, a: ArticleRow)
    requires
        is_newest_first(sorted),
    ensures
        is_newest_first(insert_newest_first(sorted, a)),
        insert_newest_first(sorted, a).to_multiset() == sorted.to_multiset().insert(a),
    decreases sorted.len(),
{
    broadcast use vstd::seq_lib::group_to_multiset_ensures;

    let out = insert_newest_first(sorted, a);
    if sorted.len() == 0 {
        assert(out =~= Seq::<ArticleRow>::empty().push(a));
    } else if sorted.last().created_at >= a.created_at {
        assert forall|i: int, j: int| 0 <= i < j < out.len() implies (#[trigger] out[i]).created_at
            >= (#[trigger] out[j]).created_at by {
            if j == sorted.len() && i < sorted.len() - 1 {
                assert(sorted[i].created_at >= sorted[sorted.len() - 1].created_at);
            }
        }
    } else {
        let rest = sorted.drop_last();
        assert forall|i: int, j: int| 0 <= i < j < rest.len() implies (#[trigger] rest[i]).created_at
            >= (#[trigger] rest[j]).created_at by {
            assert(sorted[i].created_at >= sorted[j].created_at);
        }
        lemma_insert_newest_first(rest, a);
        let inner = insert_newest_first(rest, a);
        assert(sorted =~= rest.push(sorted.last()));
        assert forall|i: int, j: int| 0 <= i < j < out.len() implies (#[trigger] out[i]).created_at
            >= (#[trigger] out[j]).created_at by {
            if j == inner.len() {
                assert(inner.to_multiset().contains(inner[i]));
                if inner[i] != a {
                    assert(rest.to_multiset().contains(inner[i]));
                    assert(rest.contains(inner[i]));
                    let k = choose|k: int| 0 <= k < rest.len() && rest[k] == inner[i];
                    assert(sorted[k].created_at >= sorted[sorted.len() - 1].created_at);
                }
            }
        }
        assert(out.to_multiset() =~= sorted.to_multiset().insert(a));
    }
}

/// A filter that every element passes changes nothing.
pub proof fn lemma_filter_all<T>(s: Seq<T>, p: spec_fn(T) -> bool)
    requires
        forall|i: int| 0 <= i < s.len() ==> #[trigger] p(s[i]),
    ensures
        s.filter(p) == s,
    decreases s.len(),
{
    reveal(Seq::filter);
    if s.len() > 0 {
        assert forall|i: int| 0 <= i < s.drop_last().len() implies #[trigger] p(
            s.drop_last()[i],
        ) by {
            assert(p(s[i]));
        }
        lemma_filter_all(s.drop_last(), p);
        assert(s.drop_last().push(s.last()) =~= s);
    }
}

/// A filter that only the element at `i` fails removes that element.
pub proof fn lemma_filter_remove<T>(s: Seq<T>, p: spec_fn(T) -> bool, i: int)
    requires
        0 <= i < s.len(),
        !p(s[i]),
        forall|j: int| 0 <= j < s.len() && j != i ==> #[trigger] p(s[j]),
    ensures
        s.filter(p) == s.remove(i),
    decreases s.len(),
{
    reveal(Seq::filter);
    if i == s.len() - 1 {
        assert forall|j: int| 0 <= j < s.drop_last().len() implies #[trigger] p(
            s.drop_last()[j],
        ) by {
            assert(p(s[j]));
        }
        lemma_filter_all(s.drop_last(), p);
        assert(s.remove(i) =~= s.drop_last());
    } else {
        assert forall|j: int| 0 <= j < s.drop_last().len() && j != i implies #[trigger] p(
            s.drop_last()[j],
        ) by {
            assert(p(s[j]));
        }
        lemma_filter_remove(s.drop_last(), p, i);
        assert(p(s[s.len() - 1]));
        assert(s.drop_last().remove(i).push(s.last()) =~= s.remove(i));
    }
}

/// A filter keeps apart what was apart: where `differ` holds of every two
/// elements of a sequence in their order, it holds of every two elements that
/// pass the filter.
pub proof fn lemma_filter_keeps_apart<T>(
    s: Seq<T>,
    p: spec_fn(T) -> bool,
    differ: spec_fn(T, T) -> bool,
)
    requires
        forall|i: int, j: int| 0 <= i < j < s.len() ==> #[trigger] differ(s[i], s[j]),
    ensures
        forall|a: int, b: int|
            #![trigger s.filter(p)[a], s.filter(p)[b]]
            0 <= a < b < s.filter(p).len() ==> differ(s.filter(p)[a], s.filter(p)[b]),
{
    let at = lemma_filter_positions(s, p);
    assert forall|a: int, b: int| 0 <= a < b < s.filter(p).len() implies differ(
        #[trigger] s.filter(p)[a],
        #[trigger] s.filter(p)[b],
    ) by {
        assert(at[a] < at[b]);
        assert(differ(s[at[a]], s[at[b]]));
    }
}

/// A match at `i` with none before it is the first match.
pub proof fn lemma_first_match_at<T>(s: Seq<T>, p: spec_fn(T) -> bool, i: int)
    requires
        0 <= i < s.len(),
        p(s[i]),
        forall|j: int| 0 <= j < i ==> !#[trigger] p(s[j]),
    ensures
        first_match(s, p) == Some(s[i]),
{
}

/// Where nothing matches there is no first match.
pub proof fn lemma_first_match_none<T>(s: Seq<T>, p: spec_fn(T) -> bool)
    requires
        forall|j: int| 0 <= j < s.len() ==> !#[trigger] p(s[j]),
    ensures
        first_match(s, p) is None,
{
}

/// Where there is no first match, no element matches.
pub proof fn lemma_first_match_misses<T>(s: Seq<T>, p: spec_fn(T) -> bool, i: int)
    requires
        first_match(s, p) is None,
        0 <= i < s.len(),
    ensures
        !p(s[i]),
{
}

/// Below any match there is a least one.
pub proof fn lemma_least_match<T>(s: Seq<T>, p: spec_fn(T) -> bool, i: int) -> (k: int)
    requires
        0 <= i < s.len(),
        p(s[i]),
    ensures
        0 <= k <= i,
        p(s[k]),
        forall|j: int| 0 <= j < k ==> !#[trigger] p(s[j]),
    decreases i,
{
    if exists|j: int| 0 <= j < i && #[trigger] p(s[j]) {
        let j = choose|j: int| 0 <= j < i && #[trigger] p(s[j]);
        lemma_least_match(s, p, j)
    } else {
        i
    }
}

/// A first match is an element of the sequence that satisfies the predicate,
/// and nothing before it does.
pub proof fn lemma_first_match_some<T>(s: Seq<T>, p: spec_fn(T) -> bool) -> (k: int)
    requires
        first_match(s, p) is Some,
    ensures
        0 <= k < s.len(),
        first_match(s, p) == Some(s[k]),
        p(s[k]),
        forall|j: int| 0 <= j < k ==> !#[trigger] p(s[j]),
{
    let i = choose|i: int| 0 <= i < s.len() && #[trigger] p(s[i]);
    let least = lemma_least_match(s, p, i);
    choose|i: int|
        0 <= i < s.len() && #[trigger] p(s[i]) && forall|j: int|
            0 <= j < i ==> !#[trigger] p(s[j])
}

} // verus!
