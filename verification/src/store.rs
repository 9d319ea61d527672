//! The store: the six tables of the backend, held in memory under their
//! unique constraints, with a journal of every write.
//!
//! A [`Store`] stands for the relational store at one moment. Whoever owns
//! the real store loads its rows into a [`Store`], lets a route work on it,
//! and then replays the journal on the real store.

use crate::model::{
    article_is, article_is_not, article_with_slug, comment_is, comment_is_not,
    comment_on, edge_from, edge_is_not, favorite_is_not, favorite_not_of, favorite_of,
    followee, lemma_filter_remove, lemma_filter_step, lemma_first_match_at,
    lemma_first_match_none, lemma_rows_push, put_article, put_user, rows, tag_name,
    tag_not_of, tag_of, user_is, user_is_not, user_named, user_with_email, ArticleRow,
    CommentRow, FavoriteRow, FollowerRow, TagRow, Tables, WriteRow,
};
use crate::schemas::article_comment_schema::Comment;
use crate::schemas::article_tag_schema::ArticleTag;
use crate::schemas::articles_schema::{Article, Follower, NewFavoriteArticle};
use crate::schemas::users_schema::User;
use vstd::prelude::*;

verus! {

/// One write to the store, as the journal records it.
#[derive(Debug)]
pub enum Write {
    InsertUser(User),
    UpdateUser(User),
    DeleteUser(u128),
    InsertArticle(Article),
    UpdateArticle(Article),
    DeleteArticle(u128),
    InsertTag(ArticleTag),
    DeleteTags(u128),
    InsertFavorite(NewFavoriteArticle),
    DeleteFavorite(NewFavoriteArticle),
    DeleteFavorites(u128),
    InsertFollower(Follower),
    DeleteFollower(u128, u128),
    InsertComment(Comment),
    DeleteComment(i32),
}

impl View for Write {
    type V = WriteRow;

    open spec fn view(&self) -> WriteRow {
        match *self {
            Write::InsertUser(u) => WriteRow::InsertUser(u@),
            Write::UpdateUser(u) => WriteRow::UpdateUser(u@),
            Write::DeleteUser(id) => WriteRow::DeleteUser(id),
            Write::InsertArticle(a) => WriteRow::InsertArticle(a@),
            Write::UpdateArticle(a) => WriteRow::UpdateArticle(a@),
            Write::DeleteArticle(id) => WriteRow::DeleteArticle(id),
            Write::InsertTag(t) => WriteRow::InsertTag(t@),
            Write::DeleteTags(id) => WriteRow::DeleteTags(id),
            Write::InsertFavorite(f) => WriteRow::InsertFavorite(f@),
            Write::DeleteFavorite(f) => WriteRow::DeleteFavorite(f@),
            Write::DeleteFavorites(id) => WriteRow::DeleteFavorites(id),
            Write::InsertFollower(f) => WriteRow::InsertFollower(f@),
            Write::DeleteFollower(user_id, follower_id) => WriteRow::DeleteFollower(
                user_id,
                follower_id,
            ),
            Write::InsertComment(c) => WriteRow::InsertComment(c@),
            Write::DeleteComment(id) => WriteRow::DeleteComment(id),
        }
    }
}

/// The view of an optional value.
pub open spec fn view_of<T: View>(o: Option<T>) -> Option<T::V> {
    match o {
        Some(x) => Some(x@),
        None => None,
    }
}

/// The tables of the backend at one moment, and the writes made since the
/// journal was last taken.
#[derive(Debug)]
pub struct Store {
    users: Vec<User>,
    articles: Vec<Article>,
    tags: Vec<ArticleTag>,
    favorites: Vec<NewFavoriteArticle>,
    followers: Vec<Follower>,
    comments: Vec<Comment>,
    next_comment_id: i32,
    journal: Vec<Write>,
}

impl View for Store {
    type V = Tables;

    closed spec fn view(&self) -> Tables {
        Tables {
            users: rows(self.users@),
            articles: rows(self.articles@),
            tags: rows(self.tags@),
            favorites: rows(self.favorites@),
            followers: rows(self.followers@),
            comments: rows(self.comments@),
            next_comment_id: self.next_comment_id,
            journal: rows(self.journal@),
        }
    }
}

impl Store {
    /// The unique constraints hold of the tables.
    pub open spec fn wf(&self) -> bool {
        self@.wf()
    }

    /// The store with no rows and an empty journal.
    pub fn new() -> (r: Store)
        ensures
            r@ == Tables::empty(),
            r.wf(),
    {
        let r = Store {
            users: Vec::new(),
            articles: Vec::new(),
            tags: Vec::new(),
            favorites: Vec::new(),
            followers: Vec::new(),
            comments: Vec::new(),
            next_comment_id: 1,
            journal: Vec::new(),
        };
        assert(r@.users =~= Seq::empty());
        assert(r@.articles =~= Seq::empty());
        assert(r@.tags =~= Seq::empty());
        assert(r@.favorites =~= Seq::empty());
        assert(r@.followers =~= Seq::empty());
        assert(r@.comments =~= Seq::empty());
        assert(r@.journal =~= Seq::empty());
        r
    }

    // ------------------------------------------------------------------
    // users
    // ------------------------------------------------------------------

    fn user_index_by_username(&self, username: &String) -> (r: Option<usize>)
        ensures
            match r {
                Some(i) => i < self.users.len() && self.users@[i as int].username@ == username@
                    && self@.user_named(username@) == Some(self.users@[i as int]@),
                None => self@.user_named(username@) is None && forall|j: int|
                    0 <= j < self.users.len() ==> self.users@[j].username@ != username@,
            },
    {
        let mut i: usize = 0;
        while i < self.users.len()
            invariant
                i <= self.users.len(),
                forall|j: int| 0 <= j < i ==> self.users@[j].username@ != username@,
            decreases self.users.len() - i,
        {
            if self.users[i].username == *username {
                proof {
                    lemma_first_match_at(
                        self@.users,
                        user_named(username@),
                        i as int,
                    );
                }
                return Some(i);
            }
            i += 1;
        }
        proof {
            lemma_first_match_none(self@.users, user_named(username@));
        }
        None
    }

    fn user_index_by_email(&self, email: &String) -> (r: Option<usize>)
        ensures
            match r {
                Some(i) => i < self.users.len() && self.users@[i as int].email@ == email@
                    && self@.user_with_email(email@) == Some(self.users@[i as int]@),
                None => self@.user_with_email(email@) is None && forall|j: int|
                    0 <= j < self.users.len() ==> self.users@[j].email@ != email@,
            },
    {
        let mut i: usize = 0;
        while i < self.users.len()
            invariant
                i <= self.users.len(),
                forall|j: int| 0 <= j < i ==> self.users@[j].email@ != email@,
            decreases self.users.len() - i,
        {
            if self.users[i].email == *email {
                proof {
                    lemma_first_match_at(self@.users, user_with_email(email@), i as int);
                }
                return Some(i);
            }
            i += 1;
        }
        proof {
            lemma_first_match_none(self@.users, user_with_email(email@));
        }
        None
    }

    fn user_index_by_id(&self, id: u128) -> (r: Option<usize>)
        ensures
            match r {
                Some(i) => i < self.users.len() && self.users@[i as int].id == id
                    && self@.user_with_id(id) == Some(self.users@[i as int]@),
                None => self@.user_with_id(id) is None && forall|j: int|
                    0 <= j < self.users.len() ==> self.users@[j].id != id,
            },
    {
        let mut i: usize = 0;
        while i < self.users.len()
            invariant
                i <= self.users.len(),
                forall|j: int| 0 <= j < i ==> self.users@[j].id != id,
            decreases self.users.len() - i,
        {
            if self.users[i].id == id {
                proof {
                    lemma_first_match_at(self@.users, user_is(id), i as int);
                }
                return Some(i);
            }
            i += 1;
        }
        proof {
            lemma_first_match_none(self@.users, user_is(id));
        }
        None
    }

    /// The user with this username.
    pub fn user_by_username(&self, username: &String) -> (r: Option<User>)
        ensures
            view_of(r) == self@.user_named(username@),
    {
        match self.user_index_by_username(username) {
            Some(i) => Some(self.users[i].clone()),
            None => None,
        }
    }

    /// The user with this email.
    pub fn user_by_email(&self, email: &String) -> (r: Option<User>)
        ensures
            view_of(r) == self@.user_with_email(email@),
    {
        match self.user_index_by_email(email) {
            Some(i) => Some(self.users[i].clone()),
            None => None,
        }
    }

    /// The user with this id.
    pub fn user_by_id(&self, id: u128) -> (r: Option<User>)
        ensures
            view_of(r) == self@.user_with_id(id),
    {
        match self.user_index_by_id(id) {
            Some(i) => Some(self.users[i].clone()),
            None => None,
        }
    }

    /// Inserts a user, unless its id, username or email is taken. Says
    /// whether it did.
    pub fn insert_user(&mut self, row: User) -> (r: bool)
        requires
            old(self).wf(),
        ensures
            final(self).wf(),
            r == old(self)@.admits_user(row@),
            final(self)@ == if r {
                old(self)@.insert_user(row@)
            } else {
                old(self)@
            },
    {
        if self.user_index_by_id(row.id).is_some() {
            return false;
        }
        if self.user_index_by_username(&row.username).is_some() {
            return false;
        }
        if self.user_index_by_email(&row.email).is_some() {
            return false;
        }
        let write = Write::InsertUser(row.clone());
        proof {
            lemma_rows_push(self.users@, row);
            lemma_rows_push(self.journal@, write);
        }
        self.journal.push(write);
        self.users.push(row);
        proof {
            assert(self@ == old(self)@.insert_user(row@));
            old(self)@.lemma_insert_user(row@);
        }
        true
    }

    /// Puts `row` in the place of the user with its id, unless there is no
    /// such user or another user has its username or email. Says whether it
    /// did.
    pub fn update_user(&mut self, row: User) -> (r: bool)
        requires
            old(self).wf(),
        ensures
            final(self).wf(),
            r == old(self)@.admits_user_update(row@),
            final(self)@ == if r {
                old(self)@.update_user(row@)
            } else {
                old(self)@
            },
    {
        let at = match self.user_index_by_id(row.id) {
            Some(i) => i,
            None => {
                return false;
            },
        };
        if let Some(k) = self.user_index_by_username(&row.username) {
            if k != at {
                assert(self@.users[k as int].id != self@.users[at as int].id);
                return false;
            }
        }
        if let Some(k) = self.user_index_by_email(&row.email) {
            if k != at {
                assert(self@.users[k as int].id != self@.users[at as int].id);
                return false;
            }
        }
        let write = Write::UpdateUser(row.clone());
        proof {
            lemma_rows_push(self.journal@, write);
            assert forall|j: int| 0 <= j < self.users.len() && j != at implies (
            #[trigger] self@.users[j]).id != row.id && self@.users[j].username != row.username@
                && self@.users[j].email != row.email@ by {
                assert(self@.users[j].id != self@.users[at as int].id);
            }
            assert(rows(self.users@.update(at as int, row)) =~= rows(self.users@).map_values(
                put_user(row@),
            ));
            assert(old(self)@.admits_user_update(row@));
        }
        self.journal.push(write);
        self.users.set(at, row);
        proof {
            assert(self@ == old(self)@.update_user(row@));
            old(self)@.lemma_update_user(row@);
        }
        true
    }

    /// Deletes the user with this id. Says whether there was one.
    pub fn delete_user(&mut self, id: u128) -> (r: bool)
        requires
            old(self).wf(),
        ensures
            final(self).wf(),
            r == (old(self)@.user_with_id(id) is Some),
            final(self)@ == if r {
                old(self)@.delete_user(id)
            } else {
                old(self)@
            },
    {
        let at = match self.user_index_by_id(id) {
            Some(i) => i,
            None => {
                return false;
            },
        };
        let write = Write::DeleteUser(id);
        proof {
            lemma_rows_push(self.journal@, write);
            assert forall|j: int| 0 <= j < self.users.len() && j != at implies (
            #[trigger] self@.users[j]).id != id by {
                assert(self@.users[j].id != self@.users[at as int].id);
            }
            lemma_filter_remove(rows(self.users@), user_is_not(id), at as int);
            assert(rows(self.users@.remove(at as int)) =~= rows(self.users@).remove(at as int));
        }
        self.journal.push(write);
        self.users.remove(at);
        proof {
            assert(self@ == old(self)@.delete_user(id));
            old(self)@.lemma_delete_user(id);
        }
        true
    }

    // ------------------------------------------------------------------
    // articles
    // ------------------------------------------------------------------

    fn article_index_by_slug(&self, slug: &String) -> (r: Option<usize>)
        ensures
            match r {
                Some(i) => i < self.articles.len() && self.articles@[i as int].slug@ == slug@
                    && self@.article_with_slug(slug@) == Some(self.articles@[i as int]@),
                None => self@.article_with_slug(slug@) is None && forall|j: int|
                    0 <= j < self.articles.len() ==> self.articles@[j].slug@ != slug@,
            },
    {
        let mut i: usize = 0;
        while i < self.articles.len()
            invariant
                i <= self.articles.len(),
                forall|j: int| 0 <= j < i ==> self.articles@[j].slug@ != slug@,
            decreases self.articles.len() - i,
        {
            if self.articles[i].slug == *slug {
                proof {
                    lemma_first_match_at(self@.articles, article_with_slug(slug@), i as int);
                }
                return Some(i);
            }
            i += 1;
        }
        proof {
            lemma_first_match_none(self@.articles, article_with_slug(slug@));
        }
        None
    }

    fn article_index_by_id(&self, id: u128) -> (r: Option<usize>)
        ensures
            match r {
                Some(i) => i < self.articles.len() && self.articles@[i as int].id == id
                    && self@.article_with_id(id) == Some(self.articles@[i as int]@),
                None => self@.article_with_id(id) is None && forall|j: int|
                    0 <= j < self.articles.len() ==> self.articles@[j].id != id,
            },
    {
        let mut i: usize = 0;
        while i < self.articles.len()
            invariant
                i <= self.articles.len(),
                forall|j: int| 0 <= j < i ==> self.articles@[j].id != id,
            decreases self.articles.len() - i,
        {
            if self.articles[i].id == id {
                proof {
                    lemma_first_match_at(self@.articles, article_is(id), i as int);
                }
                return Some(i);
            }
            i += 1;
        }
        proof {
            lemma_first_match_none(self@.articles, article_is(id));
        }
        None
    }

    /// The article with this slug.
    pub fn article_by_slug(&self, slug: &String) -> (r: Option<Article>)
        ensures
            view_of(r) == self@.article_with_slug(slug@),
    {
        match self.article_index_by_slug(slug) {
            Some(i) => Some(self.articles[i].clone()),
            None => None,
        }
    }

    /// The article with this id.
    pub fn article_by_id(&self, id: u128) -> (r: Option<Article>)
        ensures
            view_of(r) == self@.article_with_id(id),
    {
        match self.article_index_by_id(id) {
            Some(i) => Some(self.articles[i].clone()),
            None => None,
        }
    }

    /// The articles, in table order.
    pub fn articles(&self) -> (r: &Vec<Article>)
        ensures
            rows(r@) == self@.articles,
    {
        &self.articles
    }

    /// Inserts an article, unless its id or slug is taken. Says whether it
    /// did.
    pub fn insert_article(&mut self, row: Article) -> (r: bool)
        requires
            old(self).wf(),
        ensures
            final(self).wf(),
            r == old(self)@.admits_article(row@),
            final(self)@ == if r {
                old(self)@.insert_article(row@)
            } else {
                old(self)@
            },
    {
        if self.article_index_by_id(row.id).is_some() {
            return false;
        }
        if self.article_index_by_slug(&row.slug).is_some() {
            return false;
        }
        let write = Write::InsertArticle(row.clone());
        proof {
            lemma_rows_push(self.articles@, row);
            lemma_rows_push(self.journal@, write);
        }
        self.journal.push(write);
        self.articles.push(row);
        proof {
            assert(self@ == old(self)@.insert_article(row@));
            old(self)@.lemma_insert_article(row@);
        }
        true
    }

    /// Puts `row` in the place of the article with its id, unless there is no
    /// such article or another article has its slug. Says whether it did.
    pub fn update_article(&mut self, row: Article) -> (r: bool)
        requires
            old(self).wf(),
        ensures
            final(self).wf(),
            r == old(self)@.admits_article_update(row@),
            final(self)@ == if r {
                old(self)@.update_article(row@)
            } else {
                old(self)@
            },
    {
        let at = match self.article_index_by_id(row.id) {
            Some(i) => i,
            None => {
                return false;
            },
        };
        if let Some(k) = self.article_index_by_slug(&row.slug) {
            if k != at {
                assert(self@.articles[k as int].id != self@.articles[at as int].id);
                return false;
            }
        }
        let write = Write::UpdateArticle(row.clone());
        proof {
            lemma_rows_push(self.journal@, write);
            assert forall|j: int| 0 <= j < self.articles.len() && j != at implies (
            #[trigger] self@.articles[j]).id != row.id && self@.articles[j].slug != row.slug@ by {
                assert(self@.articles[j].id != self@.articles[at as int].id);
            }
            assert(rows(self.articles@.update(at as int, row)) =~= rows(
                self.articles@,
            ).map_values(put_article(row@)));
            assert(old(self)@.admits_article_update(row@));
        }
        self.journal.push(write);
        self.articles.set(at, row);
        proof {
            assert(self@ == old(self)@.update_article(row@));
            old(self)@.lemma_update_article(row@);
        }
        true
    }

    /// Whether a tag or a favorite refers to the article.
    fn is_referred_to(&self, id: u128) -> (r: bool)
        ensures
            r == !({
                &&& forall|i: int|
                    0 <= i < self@.tags.len() ==> (#[trigger] self@.tags[i]).article_id != id
                &&& forall|i: int|
                    0 <= i < self@.favorites.len() ==> (#[trigger] self@.favorites[i]).article_id
                        != id
            }),
    {
        let mut i: usize = 0;
        while i < self.tags.len()
            invariant
                i <= self.tags.len(),
                forall|j: int| 0 <= j < i ==> (#[trigger] self@.tags[j]).article_id != id,
            decreases self.tags.len() - i,
        {
            if self.tags[i].article_id == id {
                assert(self@.tags[i as int].article_id == id);
                return true;
            }
            assert(self@.tags[i as int].article_id != id);
            i += 1;
        }
        let mut k: usize = 0;
        while k < self.favorites.len()
            invariant
                k <= self.favorites.len(),
                forall|j: int| 0 <= j < self@.tags.len() ==> (#[trigger] self@.tags[j]).article_id
                    != id,
                forall|j: int| 0 <= j < k ==> (#[trigger] self@.favorites[j]).article_id != id,
            decreases self.favorites.len() - k,
        {
            if self.favorites[k].article_id == id {
                assert(self@.favorites[k as int].article_id == id);
                return true;
            }
            assert(self@.favorites[k as int].article_id != id);
            k += 1;
        }
        false
    }

    /// Deletes the article with this id, unless there is none or a tag or a
    /// favorite still refers to it. Says whether it did.
    pub fn delete_article(&mut self, id: u128) -> (r: bool)
        requires
            old(self).wf(),
        ensures
            final(self).wf(),
            r == old(self)@.admits_article_delete(id),
            final(self)@ == if r {
                old(self)@.delete_article(id)
            } else {
                old(self)@
            },
    {
        let at = match self.article_index_by_id(id) {
            Some(i) => i,
            None => {
                return false;
            },
        };
        if self.is_referred_to(id) {
            return false;
        }
        let write = Write::DeleteArticle(id);
        proof {
            lemma_rows_push(self.journal@, write);
            assert forall|j: int| 0 <= j < self.articles.len() && j != at implies (
            #[trigger] self@.articles[j]).id != id by {
                assert(self@.articles[j].id != self@.articles[at as int].id);
            }
            lemma_filter_remove(rows(self.articles@), article_is_not(id), at as int);
            assert(rows(self.articles@.remove(at as int)) =~= rows(self.articles@).remove(
                at as int,
            ));
        }
        self.journal.push(write);
        self.articles.remove(at);
        proof {
            assert(self@ == old(self)@.delete_article(id));
            old(self)@.lemma_delete_article(id);
        }
        true
    }
    // ------------------------------------------------------------------
    // article_tags
    // ------------------------------------------------------------------

    fn tag_index(&self, article_id: u128, tag_name: &String) -> (r: Option<usize>)
        ensures
            r is Some <==> self@.has_tag(article_id, tag_name@),
            r matches Some(i) ==> i < self.tags.len() && self.tags@[i as int].article_id
                == article_id && self.tags@[i as int].tag_name@ == tag_name@,
    {
        let mut i: usize = 0;
        while i < self.tags.len()
            invariant
                i <= self.tags.len(),
                forall|j: int|
                    0 <= j < i ==> !(self.tags@[j].article_id == article_id
                        && self.tags@[j].tag_name@ == tag_name@),
            decreases self.tags.len() - i,
        {
            if self.tags[i].article_id == article_id && self.tags[i].tag_name == *tag_name {
                assert(self@.tags[i as int].article_id == article_id);
                return Some(i);
            }
            i += 1;
        }
        assert forall|j: int| 0 <= j < self@.tags.len() implies !((
        #[trigger] self@.tags[j]).article_id == article_id && self@.tags[j].tag_name
            == tag_name@) by {
            assert(self.tags@[j].article_id == self@.tags[j].article_id);
        }
        None
    }

    /// Whether the article has the tag.
    pub fn has_tag(&self, article_id: u128, tag_name: &String) -> (r: bool)
        ensures
            r == self@.has_tag(article_id, tag_name@),
    {
        self.tag_index(article_id, tag_name).is_some()
    }

    /// The tags, in table order.
    pub fn tags(&self) -> (r: &Vec<ArticleTag>)
        ensures
            rows(r@) == self@.tags,
    {
        &self.tags
    }

    /// The tag names of an article, in table order.
    pub fn tag_names_of(&self, article_id: u128) -> (r: Vec<String>)
        ensures
            rows(r@) == self@.tag_names_of(article_id),
    {
        let mut out: Vec<String> = Vec::new();
        let mut i: usize = 0;
        assert(self@.tags.take(0) =~= Seq::empty());
        assert(rows(out@) =~= Seq::<TagRow>::empty().map_values(tag_name()));
        while i < self.tags.len()
            invariant
                i <= self.tags.len(),
                rows(out@) == self@.tags.take(i as int).filter(tag_of(article_id)).map_values(
                    tag_name(),
                ),
            decreases self.tags.len() - i,
        {
            proof {
                lemma_filter_step(self@.tags, tag_of(article_id), i as int);
            }
            if self.tags[i].article_id == article_id {
                let name = self.tags[i].tag_name.clone();
                proof {
                    lemma_rows_push(out@, name);
                    let kept = self@.tags.take(i as int).filter(tag_of(article_id));
                    assert(kept.push(self@.tags[i as int]).map_values(tag_name())
                        =~= kept.map_values(tag_name()).push(name@));
                }
                out.push(name);
            }
            i += 1;
        }
        assert(self@.tags.take(i as int) =~= self@.tags);
        out
    }

    /// Deletes the tags of an article.
    pub fn delete_tags(&mut self, article_id: u128)
        requires
            old(self).wf(),
        ensures
            final(self).wf(),
            final(self)@ == old(self)@.delete_tags(article_id),
    {
        let mut kept: Vec<ArticleTag> = Vec::new();
        let mut i: usize = 0;
        assert(self@.tags.take(0) =~= Seq::empty());
        assert(rows(kept@) =~= Seq::<TagRow>::empty());
        while i < self.tags.len()
            invariant
                i <= self.tags.len(),
                rows(kept@) == self@.tags.take(i as int).filter(tag_not_of(article_id)),
            decreases self.tags.len() - i,
        {
            proof {
                lemma_filter_step(self@.tags, tag_not_of(article_id), i as int);
            }
            if self.tags[i].article_id != article_id {
                let row = self.tags[i].clone();
                proof {
                    lemma_rows_push(kept@, row);
                }
                kept.push(row);
            }
            i += 1;
        }
        assert(self@.tags.take(i as int) =~= self@.tags);
        let write = Write::DeleteTags(article_id);
        proof {
            lemma_rows_push(self.journal@, write);
        }
        self.journal.push(write);
        self.tags = kept;
        proof {
            assert(self@ == old(self)@.delete_tags(article_id));
            old(self)@.lemma_delete_tags(article_id);
        }
    }

    /// Inserts a tag row, unless the article is not there or already has the
    /// tag. Says whether it did.
    pub fn add_tag(&mut self, row: ArticleTag) -> (r: bool)
        requires
            old(self).wf(),
        ensures
            final(self).wf(),
            r == old(self)@.admits_tag(row@),
            final(self)@ == old(self)@.add_tag(row@),
    {
        if self.article_index_by_id(row.article_id).is_none() {
            return false;
        }
        if self.tag_index(row.article_id, &row.tag_name).is_some() {
            return false;
        }
        let write = Write::InsertTag(row.clone());
        proof {
            lemma_rows_push(self.tags@, row);
            lemma_rows_push(self.journal@, write);
            old(self)@.lemma_add_tag(row@);
        }
        self.journal.push(write);
        self.tags.push(row);
        proof {
            assert(self@ == old(self)@.add_tag(row@));
        }
        true
    }

    // ------------------------------------------------------------------
    // favorite_articles
    // ------------------------------------------------------------------

    fn favorite_index(&self, edge: NewFavoriteArticle) -> (r: Option<usize>)
        ensures
            r is Some <==> self@.has_favorite(edge@),
            r matches Some(i) ==> i < self.favorites.len() && self@.favorites[i as int] == edge@,
    {
        let mut i: usize = 0;
        while i < self.favorites.len()
            invariant
                i <= self.favorites.len(),
                forall|j: int| 0 <= j < i ==> self@.favorites[j] != edge@,
            decreases self.favorites.len() - i,
        {
            if self.favorites[i].user_id == edge.user_id && self.favorites[i].article_id
                == edge.article_id {
                assert(self@.favorites[i as int] == edge@);
                return Some(i);
            }
            assert(self@.favorites[i as int] != edge@);
            i += 1;
        }
        None
    }

    /// Whether the edge is in the table.
    pub fn has_favorite(&self, edge: NewFavoriteArticle) -> (r: bool)
        ensures
            r == self@.has_favorite(edge@),
    {
        self.favorite_index(edge).is_some()
    }

    /// How many users have favorited the article.
    pub fn favorites_count(&self, article_id: u128) -> (r: usize)
        ensures
            r == self@.favorites_count(article_id),
    {
        let mut count: usize = 0;
        let mut i: usize = 0;
        assert(self@.favorites.take(0) =~= Seq::empty());
        assert(Seq::<FavoriteRow>::empty().filter(favorite_of(article_id)).len() == 0) by {
            Seq::<FavoriteRow>::empty().lemma_filter_len(favorite_of(article_id));
        }
        while i < self.favorites.len()
            invariant
                i <= self.favorites.len(),
                count <= i,
                count == self@.favorites.take(i as int).filter(favorite_of(article_id)).len(),
            decreases self.favorites.len() - i,
        {
            proof {
                lemma_filter_step(self@.favorites, favorite_of(article_id), i as int);
            }
            if self.favorites[i].article_id == article_id {
                count += 1;
            }
            i += 1;
        }
        assert(self@.favorites.take(i as int) =~= self@.favorites);
        count
    }

    /// Inserts a favorite edge, unless the article is not there or the edge
    /// is there already. Says whether it did.
    pub fn add_favorite(&mut self, edge: NewFavoriteArticle) -> (r: bool)
        requires
            old(self).wf(),
        ensures
            final(self).wf(),
            r == old(self)@.admits_favorite(edge@),
            final(self)@ == old(self)@.add_favorite(edge@),
    {
        if self.article_index_by_id(edge.article_id).is_none() {
            return false;
        }
        if self.favorite_index(edge).is_some() {
            return false;
        }
        let write = Write::InsertFavorite(edge);
        proof {
            lemma_rows_push(self.favorites@, edge);
            lemma_rows_push(self.journal@, write);
            old(self)@.lemma_add_favorite(edge@);
        }
        self.journal.push(write);
        self.favorites.push(edge);
        proof {
            assert(self@ == old(self)@.add_favorite(edge@));
        }
        true
    }

    /// Deletes a favorite edge. Says whether it was there.
    pub fn remove_favorite(&mut self, edge: NewFavoriteArticle) -> (r: bool)
        requires
            old(self).wf(),
        ensures
            final(self).wf(),
            r == old(self)@.has_favorite(edge@),
            final(self)@ == if r {
                old(self)@.remove_favorite(edge@)
            } else {
                old(self)@
            },
    {
        let at = match self.favorite_index(edge) {
            Some(i) => i,
            None => {
                return false;
            },
        };
        let write = Write::DeleteFavorite(edge);
        proof {
            lemma_rows_push(self.journal@, write);
            assert forall|j: int| 0 <= j < self.favorites.len() && j != at implies (
            #[trigger] self@.favorites[j]) != edge@ by {
                assert(self@.favorites[j] != self@.favorites[at as int]);
            }
            lemma_filter_remove(rows(self.favorites@), favorite_is_not(edge@), at as int);
            assert(rows(self.favorites@.remove(at as int)) =~= rows(self.favorites@).remove(
                at as int,
            ));
        }
        self.journal.push(write);
        self.favorites.remove(at);
        proof {
            assert(self@ == old(self)@.remove_favorite(edge@));
            old(self)@.lemma_remove_favorite(edge@);
        }
        true
    }

    /// Deletes the favorite edges of an article.
    pub fn delete_favorites(&mut self, article_id: u128)
        requires
            old(self).wf(),
        ensures
            final(self).wf(),
            final(self)@ == old(self)@.delete_favorites(article_id),
    {
        let mut kept: Vec<NewFavoriteArticle> = Vec::new();
        let mut i: usize = 0;
        assert(self@.favorites.take(0) =~= Seq::empty());
        assert(rows(kept@) =~= Seq::<FavoriteRow>::empty());
        while i < self.favorites.len()
            invariant
                i <= self.favorites.len(),
                rows(kept@) == self@.favorites.take(i as int).filter(
                    favorite_not_of(article_id),
                ),
            decreases self.favorites.len() - i,
        {
            proof {
                lemma_filter_step(self@.favorites, favorite_not_of(article_id), i as int);
            }
            if self.favorites[i].article_id != article_id {
                let row = self.favorites[i];
                proof {
                    lemma_rows_push(kept@, row);
                }
                kept.push(row);
            }
            i += 1;
        }
        assert(self@.favorites.take(i as int) =~= self@.favorites);
        let write = Write::DeleteFavorites(article_id);
        proof {
            lemma_rows_push(self.journal@, write);
        }
        self.journal.push(write);
        self.favorites = kept;
        proof {
            assert(self@ == old(self)@.delete_favorites(article_id));
            old(self)@.lemma_delete_favorites(article_id);
        }
    }

    // ------------------------------------------------------------------
    // followers
    // ------------------------------------------------------------------

    fn follower_index(&self, user_id: u128, follower_id: u128) -> (r: Option<usize>)
        ensures
            r is Some <==> self@.follows(user_id, follower_id),
            r matches Some(i) ==> i < self.followers.len() && self@.followers[i as int].user_id
                == user_id && self@.followers[i as int].follower_id == follower_id,
    {
        let mut i: usize = 0;
        while i < self.followers.len()
            invariant
                i <= self.followers.len(),
                forall|j: int|
                    0 <= j < i ==> !((#[trigger] self@.followers[j]).user_id == user_id
                        && self@.followers[j].follower_id == follower_id),
            decreases self.followers.len() - i,
        {
            if self.followers[i].user_id == user_id && self.followers[i].follower_id
                == follower_id {
                assert(self@.followers[i as int].user_id == user_id);
                return Some(i);
            }
            assert(!(self@.followers[i as int].user_id == user_id
                && self@.followers[i as int].follower_id == follower_id));
            i += 1;
        }
        None
    }

    /// Whether `follower_id` follows `user_id`.
    pub fn follows(&self, user_id: u128, follower_id: u128) -> (r: bool)
        ensures
            r == self@.follows(user_id, follower_id),
    {
        self.follower_index(user_id, follower_id).is_some()
    }

    /// The ids of the users that `follower_id` follows, in table order.
    pub fn followed_by(&self, follower_id: u128) -> (r: Vec<u128>)
        ensures
            r@ == self@.followed_by(follower_id),
    {
        let mut out: Vec<u128> = Vec::new();
        let mut i: usize = 0;
        assert(self@.followers.take(0) =~= Seq::empty());
        assert(out@ =~= Seq::<FollowerRow>::empty().map_values(followee()));
        while i < self.followers.len()
            invariant
                i <= self.followers.len(),
                out@ == self@.followers.take(i as int).filter(edge_from(follower_id)).map_values(
                    followee(),
                ),
            decreases self.followers.len() - i,
        {
            proof {
                lemma_filter_step(self@.followers, edge_from(follower_id), i as int);
            }
            if self.followers[i].follower_id == follower_id {
                proof {
                    let kept = self@.followers.take(i as int).filter(edge_from(follower_id));
                    assert(kept.push(self@.followers[i as int]).map_values(followee())
                        =~= kept.map_values(followee()).push(self.followers@[i as int].user_id));
                }
                out.push(self.followers[i].user_id);
            }
            i += 1;
        }
        assert(self@.followers.take(i as int) =~= self@.followers);
        out
    }

    /// Inserts a follow edge, unless it is there already. Says whether it
    /// did.
    pub fn add_follower(&mut self, edge: Follower) -> (r: bool)
        requires
            old(self).wf(),
        ensures
            final(self).wf(),
            r == !old(self)@.follows(edge.user_id, edge.follower_id),
            final(self)@ == old(self)@.add_follower(edge@),
    {
        if self.follower_index(edge.user_id, edge.follower_id).is_some() {
            return false;
        }
        let write = Write::InsertFollower(edge);
        proof {
            lemma_rows_push(self.followers@, edge);
            lemma_rows_push(self.journal@, write);
            old(self)@.lemma_add_follower(edge@);
        }
        self.journal.push(write);
        self.followers.push(edge);
        proof {
            assert(self@ == old(self)@.add_follower(edge@));
        }
        true
    }

    /// Deletes a follow edge. Says whether it was there.
    pub fn remove_follower(&mut self, user_id: u128, follower_id: u128) -> (r: bool)
        requires
            old(self).wf(),
        ensures
            final(self).wf(),
            r == old(self)@.follows(user_id, follower_id),
            final(self)@ == if r {
                old(self)@.remove_follower(user_id, follower_id)
            } else {
                old(self)@
            },
    {
        let at = match self.follower_index(user_id, follower_id) {
            Some(i) => i,
            None => {
                return false;
            },
        };
        let write = Write::DeleteFollower(user_id, follower_id);
        proof {
            lemma_rows_push(self.journal@, write);
            assert forall|j: int| 0 <= j < self.followers.len() && j != at implies !((
            #[trigger] self@.followers[j]).user_id == user_id && self@.followers[j].follower_id
                == follower_id) by {
                assert(!(self@.followers[j].user_id == self@.followers[at as int].user_id
                    && self@.followers[j].follower_id
                    == self@.followers[at as int].follower_id));
            }
            lemma_filter_remove(
                rows(self.followers@),
                edge_is_not(user_id, follower_id),
                at as int,
            );
            assert(rows(self.followers@.remove(at as int)) =~= rows(self.followers@).remove(
                at as int,
            ));
        }
        self.journal.push(write);
        self.followers.remove(at);
        proof {
            assert(self@ == old(self)@.remove_follower(user_id, follower_id));
            old(self)@.lemma_remove_follower(user_id, follower_id);
        }
        true
    }

    // ------------------------------------------------------------------
    // comments
    // ------------------------------------------------------------------

    fn comment_index(&self, id: i32) -> (r: Option<usize>)
        ensures
            match r {
                Some(i) => i < self.comments.len() && self.comments@[i as int].id == id
                    && self@.comment_with_id(id) == Some(self.comments@[i as int]@),
                None => self@.comment_with_id(id) is None && forall|j: int|
                    0 <= j < self.comments.len() ==> self.comments@[j].id != id,
            },
    {
        let mut i: usize = 0;
        while i < self.comments.len()
            invariant
                i <= self.comments.len(),
                forall|j: int| 0 <= j < i ==> self.comments@[j].id != id,
            decreases self.comments.len() - i,
        {
            if self.comments[i].id == id {
                proof {
                    lemma_first_match_at(self@.comments, comment_is(id), i as int);
                }
                return Some(i);
            }
            i += 1;
        }
        proof {
            lemma_first_match_none(self@.comments, comment_is(id));
        }
        None
    }

    /// The comment with this number.
    pub fn comment_by_id(&self, id: i32) -> (r: Option<Comment>)
        ensures
            view_of(r) == self@.comment_with_id(id),
    {
        match self.comment_index(id) {
            Some(i) => Some(self.comments[i].clone()),
            None => None,
        }
    }

    /// The comments on an article, in table order.
    pub fn comments_of(&self, article_id: u128) -> (r: Vec<Comment>)
        ensures
            rows(r@) == self@.comments_of(article_id),
    {
        let mut out: Vec<Comment> = Vec::new();
        let mut i: usize = 0;
        assert(self@.comments.take(0) =~= Seq::empty());
        assert(rows(out@) =~= Seq::<CommentRow>::empty());
        while i < self.comments.len()
            invariant
                i <= self.comments.len(),
                rows(out@) == self@.comments.take(i as int).filter(comment_on(article_id)),
            decreases self.comments.len() - i,
        {
            proof {
                lemma_filter_step(self@.comments, comment_on(article_id), i as int);
            }
            if self.comments[i].article_id == article_id {
                let row = self.comments[i].clone();
                proof {
                    lemma_rows_push(out@, row);
                }
                out.push(row);
            }
            i += 1;
        }
        assert(self@.comments.take(i as int) =~= self@.comments);
        out
    }

    /// Inserts a comment under the next comment number, which takes the place
    /// of `row.id`, and returns that number; `None`, and no change, where the
    /// numbers have run out.
    pub fn insert_comment(&mut self, row: Comment) -> (r: Option<i32>)
        requires
            old(self).wf(),
        ensures
            final(self).wf(),
            r is Some <==> old(self)@.admits_comment(),
            r matches Some(id) ==> id == old(self)@.next_comment_id,
            final(self)@ == if r is Some {
                old(self)@.insert_comment(row@)
            } else {
                old(self)@
            },
    {
        if self.next_comment_id == i32::MAX {
            return None;
        }
        let id = self.next_comment_id;
        let stored = Comment { id, ..row };
        let write = Write::InsertComment(stored.clone());
        proof {
            lemma_rows_push(self.comments@, stored);
            lemma_rows_push(self.journal@, write);
            old(self)@.lemma_insert_comment(row@);
        }
        self.journal.push(write);
        self.comments.push(stored);
        self.next_comment_id = id + 1;
        proof {
            assert(self@ == old(self)@.insert_comment(row@));
        }
        Some(id)
    }

    /// Deletes the comment with this number. Says whether there was one.
    pub fn delete_comment(&mut self, id: i32) -> (r: bool)
        requires
            old(self).wf(),
        ensures
            final(self).wf(),
            r == (old(self)@.comment_with_id(id) is Some),
            final(self)@ == if r {
                old(self)@.delete_comment(id)
            } else {
                old(self)@
            },
    {
        let at = match self.comment_index(id) {
            Some(i) => i,
            None => {
                return false;
            },
        };
        let write = Write::DeleteComment(id);
        proof {
            lemma_rows_push(self.journal@, write);
            assert forall|j: int| 0 <= j < self.comments.len() && j != at implies (
            #[trigger] self@.comments[j]).id != id by {
                assert(self@.comments[j].id != self@.comments[at as int].id);
            }
            lemma_filter_remove(rows(self.comments@), comment_is_not(id), at as int);
            assert(rows(self.comments@.remove(at as int)) =~= rows(self.comments@).remove(
                at as int,
            ));
        }
        self.journal.push(write);
        self.comments.remove(at);
        proof {
            assert(self@ == old(self)@.delete_comment(id));
            old(self)@.lemma_delete_comment(id);
        }
        true
    }

    // ------------------------------------------------------------------
    // the journal
    // ------------------------------------------------------------------

    /// The writes made since the journal was last taken, oldest first.
    pub fn journal(&self) -> (r: &Vec<Write>)
        ensures
            rows(r@) == self@.journal,
    {
        &self.journal
    }

    /// Hands the journal out and starts a new one.
    pub fn take_journal(&mut self) -> (r: Vec<Write>)
        ensures
            rows(r@) == old(self)@.journal,
            final(self)@ == (Tables { journal: Seq::empty(), ..old(self)@ }),
    {
        let mut out: Vec<Write> = Vec::new();
        std::mem::swap(&mut out, &mut self.journal);
        assert(rows(self.journal@) =~= Seq::empty());
        out
    }
    // ------------------------------------------------------------------
    // loading
    // ------------------------------------------------------------------

    /// The users, in table order.
    pub fn users(&self) -> (r: &Vec<User>)
        ensures
            rows(r@) == self@.users,
    {
        &self.users
    }

    /// The favorite edges, in table order.
    pub fn favorites(&self) -> (r: &Vec<NewFavoriteArticle>)
        ensures
            rows(r@) == self@.favorites,
    {
        &self.favorites
    }

    /// The follow edges, in table order.
    pub fn followers(&self) -> (r: &Vec<Follower>)
        ensures
            rows(r@) == self@.followers,
    {
        &self.followers
    }

    /// The comments, in table order.
    pub fn comments(&self) -> (r: &Vec<Comment>)
        ensures
            rows(r@) == self@.comments,
    {
        &self.comments
    }

    /// The number that the next comment gets.
    pub fn next_comment_id(&self) -> (r: i32)
        ensures
            r == self@.next_comment_id,
    {
        self.next_comment_id
    }

    /// Puts a comment back under the number it has, unless the number is in
    /// use or has not been handed out yet. Says whether it did. Nothing is
    /// recorded in the journal.
    fn restore_comment(&mut self, row: Comment) -> (r: bool)
        requires
            old(self).wf(),
        ensures
            final(self).wf(),
            r == (old(self)@.comment_with_id(row.id) is None && row.id
                < old(self)@.next_comment_id),
            final(self)@ == if r {
                Tables { comments: old(self)@.comments.push(row@), ..old(self)@ }
            } else {
                old(self)@
            },
    {
        if row.id >= self.next_comment_id {
            return false;
        }
        if self.comment_index(row.id).is_some() {
            return false;
        }
        proof {
            lemma_rows_push(self.comments@, row);
        }
        self.comments.push(row);
        proof {
            let after = Tables { comments: old(self)@.comments.push(row@), ..old(self)@ };
            assert(self@ == after);
            assert forall|i: int, j: int| 0 <= i < j < after.comments.len() implies (
            #[trigger] after.comments[i]).id != (#[trigger] after.comments[j]).id by {
                if j == old(self)@.comments.len() {
                    crate::model::lemma_first_match_misses(
                        old(self)@.comments,
                        comment_is(row.id),
                        i,
                    );
                } else {
                    assert(old(self)@.comments[i].id != old(self)@.comments[j].id);
                }
            }
        }
        true
    }

    /// The store that holds these rows, with an empty journal: `None` where
    /// the rows break a constraint of the store.
    pub fn from_rows(
        users: &Vec<User>,
        articles: &Vec<Article>,
        tags: &Vec<ArticleTag>,
        favorites: &Vec<NewFavoriteArticle>,
        followers: &Vec<Follower>,
        comments: &Vec<Comment>,
        next_comment_id: i32,
    ) -> (r: Option<Store>)
        ensures
            r is Some <==> loaded(
                users@,
                articles@,
                tags@,
                favorites@,
                followers@,
                comments@,
                next_comment_id,
            ).wf(),
            r matches Some(store) ==> store.wf() && store@ == loaded(
                users@,
                articles@,
                tags@,
                favorites@,
                followers@,
                comments@,
                next_comment_id,
            ),
    {
        let ghost goal = loaded(
            users@,
            articles@,
            tags@,
            favorites@,
            followers@,
            comments@,
            next_comment_id,
        );
        let mut store = Store::new();
        store.next_comment_id = next_comment_id;
        assert(store@.wf());
        let mut i: usize = 0;
        assert(goal.users.take(0) =~= store@.users);
        while i < users.len()
            invariant
                i <= users.len(),
                store.wf(),
                goal == loaded(
                    users@,
                    articles@,
                    tags@,
                    favorites@,
                    followers@,
                    comments@,
                    next_comment_id,
                ),
                store@.users == goal.users.take(i as int),
                store@.articles == Seq::<ArticleRow>::empty(),
                store@.tags == Seq::<TagRow>::empty(),
                store@.favorites == Seq::<FavoriteRow>::empty(),
                store@.followers == Seq::<FollowerRow>::empty(),
                store@.comments == Seq::<CommentRow>::empty(),
                store@.next_comment_id == next_comment_id,
            decreases users.len() - i,
        {
            let ghost before = store@;
            if !store.insert_user(users[i].clone()) {
                proof {
                    let u = goal.users[i as int];
                    if before.user_with_id(u.id) is Some {
                        let k = crate::model::lemma_first_match_some(before.users, user_is(u.id));
                        assert(goal.users[k].id == goal.users[i as int].id);
                    } else if before.user_named(u.username) is Some {
                        let k = crate::model::lemma_first_match_some(
                            before.users,
                            user_named(u.username),
                        );
                        assert(goal.users[k].username == goal.users[i as int].username);
                    } else {
                        let k = crate::model::lemma_first_match_some(
                            before.users,
                            user_with_email(u.email),
                        );
                        assert(goal.users[k].email == goal.users[i as int].email);
                    }
                    assert(!goal.users_unique());
                }
                return None;
            }
            assert(goal.users.take(i + 1) =~= goal.users.take(i as int).push(
                goal.users[i as int],
            ));
            i += 1;
        }
        assert(goal.users.take(i as int) =~= goal.users);
        let mut i: usize = 0;
        assert(goal.articles.take(0) =~= store@.articles);
        while i < articles.len()
            invariant
                i <= articles.len(),
                store.wf(),
                goal == loaded(
                    users@,
                    articles@,
                    tags@,
                    favorites@,
                    followers@,
                    comments@,
                    next_comment_id,
                ),
                store@.users == goal.users,
                store@.articles == goal.articles.take(i as int),
                store@.tags == Seq::<TagRow>::empty(),
                store@.favorites == Seq::<FavoriteRow>::empty(),
                store@.followers == Seq::<FollowerRow>::empty(),
                store@.comments == Seq::<CommentRow>::empty(),
                store@.next_comment_id == next_comment_id,
            decreases articles.len() - i,
        {
            let ghost before = store@;
            if !store.insert_article(articles[i].clone()) {
                proof {
                    let a = goal.articles[i as int];
                    if before.article_with_id(a.id) is Some {
                        let k = crate::model::lemma_first_match_some(
                            before.articles,
                            article_is(a.id),
                        );
                        assert(goal.articles[k].id == goal.articles[i as int].id);
                    } else {
                        let k = crate::model::lemma_first_match_some(
                            before.articles,
                            article_with_slug(a.slug),
                        );
                        assert(goal.articles[k].slug == goal.articles[i as int].slug);
                    }
                    assert(!goal.articles_unique());
                }
                return None;
            }
            assert(goal.articles.take(i + 1) =~= goal.articles.take(i as int).push(
                goal.articles[i as int],
            ));
            i += 1;
        }
        assert(goal.articles.take(i as int) =~= goal.articles);
        let mut i: usize = 0;
        assert(goal.tags.take(0) =~= store@.tags);
        while i < tags.len()
            invariant
                i <= tags.len(),
                store.wf(),
                goal == loaded(
                    users@,
                    articles@,
                    tags@,
                    favorites@,
                    followers@,
                    comments@,
                    next_comment_id,
                ),
                store@.users == goal.users,
                store@.articles == goal.articles,
                store@.tags == goal.tags.take(i as int),
                store@.favorites == Seq::<FavoriteRow>::empty(),
                store@.followers == Seq::<FollowerRow>::empty(),
                store@.comments == Seq::<CommentRow>::empty(),
                store@.next_comment_id == next_comment_id,
            decreases tags.len() - i,
        {
            let ghost before = store@;
            if !store.add_tag(tags[i].clone()) {
                proof {
                    let t = goal.tags[i as int];
                    if before.article_with_id(t.article_id) is None {
                        assert(!goal.tags_refer());
                    } else {
                        let k = choose|k: int|
                            0 <= k < before.tags.len() && (#[trigger] before.tags[k]).article_id
                                == t.article_id && before.tags[k].tag_name == t.tag_name;
                        assert(goal.tags[k].tag_name == goal.tags[i as int].tag_name);
                        assert(!goal.tags_unique());
                    }
                }
                return None;
            }
            assert(goal.tags.take(i + 1) =~= goal.tags.take(i as int).push(goal.tags[i as int]));
            i += 1;
        }
        assert(goal.tags.take(i as int) =~= goal.tags);
        let mut i: usize = 0;
        assert(goal.favorites.take(0) =~= store@.favorites);
        while i < favorites.len()
            invariant
                i <= favorites.len(),
                store.wf(),
                goal == loaded(
                    users@,
                    articles@,
                    tags@,
                    favorites@,
                    followers@,
                    comments@,
                    next_comment_id,
                ),
                store@.users == goal.users,
                store@.articles == goal.articles,
                store@.tags == goal.tags,
                store@.favorites == goal.favorites.take(i as int),
                store@.followers == Seq::<FollowerRow>::empty(),
                store@.comments == Seq::<CommentRow>::empty(),
                store@.next_comment_id == next_comment_id,
            decreases favorites.len() - i,
        {
            let ghost before = store@;
            if !store.add_favorite(favorites[i]) {
                proof {
                    let f = goal.favorites[i as int];
                    if before.article_with_id(f.article_id) is None {
                        assert(!goal.favorites_refer());
                    } else {
                        let k = choose|k: int|
                            0 <= k < before.favorites.len() && before.favorites[k] == f;
                        assert(goal.favorites[k] == goal.favorites[i as int]);
                        assert(!goal.favorites_unique());
                    }
                }
                return None;
            }
            assert(goal.favorites.take(i + 1) =~= goal.favorites.take(i as int).push(
                goal.favorites[i as int],
            ));
            i += 1;
        }
        assert(goal.favorites.take(i as int) =~= goal.favorites);
        let mut i: usize = 0;
        assert(goal.followers.take(0) =~= store@.followers);
        while i < followers.len()
            invariant
                i <= followers.len(),
                store.wf(),
                goal == loaded(
                    users@,
                    articles@,
                    tags@,
                    favorites@,
                    followers@,
                    comments@,
                    next_comment_id,
                ),
                store@.users == goal.users,
                store@.articles == goal.articles,
                store@.tags == goal.tags,
                store@.favorites == goal.favorites,
                store@.followers == goal.followers.take(i as int),
                store@.comments == Seq::<CommentRow>::empty(),
                store@.next_comment_id == next_comment_id,
            decreases followers.len() - i,
        {
            let ghost before = store@;
            if !store.add_follower(followers[i]) {
                proof {
                    let f = goal.followers[i as int];
                    let k = choose|k: int|
                        0 <= k < before.followers.len() && (#[trigger] before.followers[k]).user_id
                            == f.user_id && before.followers[k].follower_id == f.follower_id;
                    assert(goal.followers[k].user_id == goal.followers[i as int].user_id);
                    assert(!goal.followers_unique());
                }
                return None;
            }
            assert(goal.followers.take(i + 1) =~= goal.followers.take(i as int).push(
                goal.followers[i as int],
            ));
            i += 1;
        }
        assert(goal.followers.take(i as int) =~= goal.followers);
        let mut i: usize = 0;
        assert(goal.comments.take(0) =~= store@.comments);
        while i < comments.len()
            invariant
                i <= comments.len(),
                store.wf(),
                goal == loaded(
                    users@,
                    articles@,
                    tags@,
                    favorites@,
                    followers@,
                    comments@,
                    next_comment_id,
                ),
                store@.users == goal.users,
                store@.articles == goal.articles,
                store@.tags == goal.tags,
                store@.favorites == goal.favorites,
                store@.followers == goal.followers,
                store@.comments == goal.comments.take(i as int),
                store@.next_comment_id == next_comment_id,
            decreases comments.len() - i,
        {
            let ghost before = store@;
            if !store.restore_comment(comments[i].clone()) {
                proof {
                    let c = goal.comments[i as int];
                    if c.id < next_comment_id {
                        let k = crate::model::lemma_first_match_some(
                            before.comments,
                            comment_is(c.id),
                        );
                        assert(goal.comments[k].id == goal.comments[i as int].id);
                    }
                    assert(!goal.comments_unique());
                }
                return None;
            }
            assert(goal.comments.take(i + 1) =~= goal.comments.take(i as int).push(
                goal.comments[i as int],
            ));
            i += 1;
        }
        assert(goal.comments.take(i as int) =~= goal.comments);
        let _ = store.take_journal();
        assert(store@ == goal);
        Some(store)
    }
}

/// The tables that hold these rows, with an empty journal.
pub open spec fn loaded(
    users: Seq<User>,
    articles: Seq<Article>,
    tags: Seq<ArticleTag>,
    favorites: Seq<NewFavoriteArticle>,
    followers: Seq<Follower>,
    comments: Seq<Comment>,
    next_comment_id: i32,
) -> Tables {
    Tables {
        users: rows(users),
        articles: rows(articles),
        tags: rows(tags),
        favorites: rows(favorites),
        followers: rows(followers),
        comments: rows(comments),
        next_comment_id,
        journal: Seq::empty(),
    }
}

} // verus!
