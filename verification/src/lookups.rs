//! What the lookups find after a write.

use crate::model::{
    article_is, article_with_slug, comment_is, lemma_first_match_at, lemma_first_match_misses,
    lemma_first_match_some, user_is, user_named, user_with_email, ArticleRow, CommentRow,
    Tables, UserRow,
};
use vstd::prelude::*;

verus! {

impl Tables {
    /// A user found by name is the user found by its id.
    pub proof fn lemma_user_named_has_id(self, username: Seq<char>)
        requires
            self.wf(),
            self.user_named(username) is Some,
        ensures
            self.user_with_id(self.user_named(username)->0.id) == self.user_named(username),
    {
        let k = lemma_first_match_some(self.users, user_named(username));
        let id = self.users[k].id;
        assert forall|j: int| 0 <= j < k implies !#[trigger] user_is(id)(self.users[j]) by {
            assert(self.users[j].id != self.users[k].id);
        }
        lemma_first_match_at(self.users, user_is(id), k);
    }

    /// An article found by slug is the article found by its id.
    pub proof fn lemma_article_with_slug_has_id(self, slug: Seq<char>)
        requires
            self.wf(),
            self.article_with_slug(slug) is Some,
        ensures
            self.article_with_id(self.article_with_slug(slug)->0.id) == self.article_with_slug(
                slug,
            ),
            self.article_with_slug(slug)->0.slug == slug,
    {
        let k = lemma_first_match_some(self.articles, article_with_slug(slug));
        let id = self.articles[k].id;
        assert forall|j: int| 0 <= j < k implies !#[trigger] article_is(id)(self.articles[j]) by {
            assert(self.articles[j].id != self.articles[k].id);
        }
        lemma_first_match_at(self.articles, article_is(id), k);
    }

    /// A new article is found under its slug and under its id, and every
    /// article that was there is still found under its id.
    pub proof fn lemma_insert_article_found(self, a: ArticleRow)
        requires
            self.admits_article(a),
        ensures
            self.insert_article(a).article_with_slug(a.slug) == Some(a),
            self.insert_article(a).article_with_id(a.id) == Some(a),
    {
        let t = self.insert_article(a);
        assert forall|j: int| 0 <= j < self.articles.len() implies !#[trigger] article_is(a.id)(
            t.articles[j],
        ) && !#[trigger] article_with_slug(a.slug)(t.articles[j]) by {
            lemma_first_match_misses(self.articles, article_is(a.id), j);
            lemma_first_match_misses(self.articles, article_with_slug(a.slug), j);
        }
        lemma_first_match_at(t.articles, article_is(a.id), self.articles.len() as int);
        lemma_first_match_at(t.articles, article_with_slug(a.slug), self.articles.len() as int);
    }

    /// A rewritten article is found under its slug and under its id.
    pub proof fn lemma_update_article_found(self, a: ArticleRow)
        requires
            self.wf(),
            self.admits_article_update(a),
        ensures
            self.update_article(a).article_with_slug(a.slug) == Some(a),
            self.update_article(a).article_with_id(a.id) == Some(a),
    {
        let t = self.update_article(a);
        let k = lemma_first_match_some(self.articles, article_is(a.id));
        assert(t.articles[k] == a);
        assert forall|j: int| 0 <= j < k implies !#[trigger] article_is(a.id)(t.articles[j])
            && !#[trigger] article_with_slug(a.slug)(t.articles[j]) by {
            assert(self.articles[j].id != a.id);
        }
        lemma_first_match_at(t.articles, article_is(a.id), k);
        lemma_first_match_at(t.articles, article_with_slug(a.slug), k);
    }

    /// A new comment is found under the number it was given.
    pub proof fn lemma_insert_comment_found(self, c: CommentRow)
        requires
            self.wf(),
        ensures
            self.insert_comment(c).comment_with_id(self.next_comment_id) == Some(
                CommentRow { id: self.next_comment_id, ..c },
            ),
    {
        let t = self.insert_comment(c);
        assert forall|j: int| 0 <= j < self.comments.len() implies !#[trigger] comment_is(
            self.next_comment_id,
        )(t.comments[j]) by {
            assert(self.comments[j].id < self.next_comment_id);
        }
        lemma_first_match_at(
            t.comments,
            comment_is(self.next_comment_id),
            self.comments.len() as int,
        );
    }

    /// A new user is found under its email, its name and its id.
    pub proof fn lemma_insert_user_found(self, u: UserRow)
        requires
            self.admits_user(u),
        ensures
            self.insert_user(u).user_with_email(u.email) == Some(u),
            self.insert_user(u).user_named(u.username) == Some(u),
            self.insert_user(u).user_with_id(u.id) == Some(u),
    {
        let t = self.insert_user(u);
        assert forall|j: int| 0 <= j < self.users.len() implies !#[trigger] user_is(u.id)(
            t.users[j],
        ) && !#[trigger] user_named(u.username)(t.users[j]) && !#[trigger] user_with_email(
            u.email,
        )(t.users[j]) by {
            lemma_first_match_misses(self.users, user_is(u.id), j);
            lemma_first_match_misses(self.users, user_named(u.username), j);
            lemma_first_match_misses(self.users, user_with_email(u.email), j);
        }
        lemma_first_match_at(t.users, user_is(u.id), self.users.len() as int);
        lemma_first_match_at(t.users, user_named(u.username), self.users.len() as int);
        lemma_first_match_at(t.users, user_with_email(u.email), self.users.len() as int);
    }

    /// Adding tags touches nothing but the tags and the journal.
    pub proof fn lemma_add_tags_frame(self, article_id: u128, names: Seq<Seq<char>>, now: i64)
        ensures
            self.add_tags(article_id, names, now).users == self.users,
            self.add_tags(article_id, names, now).articles == self.articles,
            self.add_tags(article_id, names, now).favorites == self.favorites,
            self.add_tags(article_id, names, now).followers == self.followers,
            self.add_tags(article_id, names, now).comments == self.comments,
            self.add_tags(article_id, names, now).next_comment_id == self.next_comment_id,
        decreases names.len(),
    {
        if names.len() > 0 {
            self.lemma_add_tags_frame(article_id, names.drop_last(), now);
        }
    }

    /// Replacing tags touches nothing but the tags and the journal.
    pub proof fn lemma_replace_tags_frame(self, article_id: u128, names: Seq<Seq<char>>, now: i64)
        ensures
            self.replace_tags(article_id, names, now).users == self.users,
            self.replace_tags(article_id, names, now).articles == self.articles,
            self.replace_tags(article_id, names, now).favorites == self.favorites,
            self.replace_tags(article_id, names, now).followers == self.followers,
            self.replace_tags(article_id, names, now).comments == self.comments,
            self.replace_tags(article_id, names, now).next_comment_id == self.next_comment_id,
    {
        self.delete_tags(article_id).lemma_add_tags_frame(article_id, names, now);
    }
}

} // verus!
