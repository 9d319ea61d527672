//! The unique constraints survive every write that the store admits.

use crate::model::{
    article_is, article_is_not, article_with_slug, comment_is_not, edge_is_not,
    favorite_is_not, favorite_not_of, lemma_filter_keeps_apart, lemma_filter_member,
    lemma_filter_positions, lemma_first_match_misses, lemma_first_match_some, tag_not_of, tag_of, user_is, user_is_not,
    user_named, user_with_email, ArticleRow, CommentRow, FavoriteRow, FollowerRow, TagRow,
    Tables, UserRow,
};
use vstd::prelude::*;

verus! {

impl Tables {
    pub proof fn lemma_insert_user(self, u: UserRow)
        requires
            self.wf(),
            self.admits_user(u),
        ensures
            self.insert_user(u).wf(),
    {
        let t = self.insert_user(u);
        assert forall|i: int, j: int| 0 <= i < j < t.users.len() implies {
            &&& (#[trigger] t.users[i]).id != (#[trigger] t.users[j]).id
            &&& t.users[i].username != t.users[j].username
            &&& t.users[i].email != t.users[j].email
        } by {
            if j < self.users.len() {
                assert(t.users[i] == self.users[i] && t.users[j] == self.users[j]);
            } else {
                lemma_first_match_misses(self.users, user_is(u.id), i);
                lemma_first_match_misses(self.users, user_named(u.username), i);
                lemma_first_match_misses(self.users, user_with_email(u.email), i);
            }
        }
    }

    pub proof fn lemma_update_user(self, u: UserRow)
        requires
            self.wf(),
            self.admits_user_update(u),
        ensures
            self.update_user(u).wf(),
    {
        let t = self.update_user(u);
        assert forall|i: int, j: int| 0 <= i < j < t.users.len() implies {
            &&& (#[trigger] t.users[i]).id != (#[trigger] t.users[j]).id
            &&& t.users[i].username != t.users[j].username
            &&& t.users[i].email != t.users[j].email
        } by {
            assert(self.users[i].id != self.users[j].id);
        }
    }

    pub proof fn lemma_delete_user(self, id: u128)
        requires
            self.wf(),
        ensures
            self.delete_user(id).wf(),
    {
        lemma_filter_keeps_apart(
            self.users,
            user_is_not(id),
            |a: UserRow, b: UserRow|
                a.id != b.id && a.username != b.username && a.email != b.email,
        );
    }

    pub proof fn lemma_insert_article(self, a: ArticleRow)
        requires
            self.wf(),
            self.admits_article(a),
        ensures
            self.insert_article(a).wf(),
    {
        let t = self.insert_article(a);
        assert forall|i: int, j: int| 0 <= i < j < t.articles.len() implies {
            &&& (#[trigger] t.articles[i]).id != (#[trigger] t.articles[j]).id
            &&& t.articles[i].slug != t.articles[j].slug
        } by {
            if j < self.articles.len() {
                assert(t.articles[i] == self.articles[i] && t.articles[j] == self.articles[j]);
            } else {
                lemma_first_match_misses(self.articles, article_is(a.id), i);
                lemma_first_match_misses(self.articles, article_with_slug(a.slug), i);
            }
        }
        assert forall|id: u128| self.article_with_id(id) is Some implies t.article_with_id(
            id,
        ) is Some by {
            let k = lemma_first_match_some(self.articles, article_is(id));
            assert(article_is(id)(t.articles[k]));
        }
    }

    pub proof fn lemma_update_article(self, a: ArticleRow)
        requires
            self.wf(),
            self.admits_article_update(a),
        ensures
            self.update_article(a).wf(),
    {
        let t = self.update_article(a);
        assert forall|i: int, j: int| 0 <= i < j < t.articles.len() implies {
            &&& (#[trigger] t.articles[i]).id != (#[trigger] t.articles[j]).id
            &&& t.articles[i].slug != t.articles[j].slug
        } by {
            assert(self.articles[i].id != self.articles[j].id);
        }
        assert forall|id: u128| self.article_with_id(id) is Some implies t.article_with_id(
            id,
        ) is Some by {
            let k = lemma_first_match_some(self.articles, article_is(id));
            assert(article_is(id)(t.articles[k]));
        }
    }

    pub proof fn lemma_delete_article(self, id: u128)
        requires
            self.wf(),
            self.admits_article_delete(id),
        ensures
            self.delete_article(id).wf(),
    {
        lemma_filter_keeps_apart(
            self.articles,
            article_is_not(id),
            |a: ArticleRow, b: ArticleRow| a.id != b.id && a.slug != b.slug,
        );
        let t = self.delete_article(id);
        assert forall|other: u128| other != id && self.article_with_id(other) is Some implies
            t.article_with_id(other) is Some by {
            let k = lemma_first_match_some(self.articles, article_is(other));
            lemma_filter_member(self.articles, article_is_not(id), self.articles[k]);
            assert(self.articles.contains(self.articles[k]));
            let m = choose|m: int| 0 <= m < t.articles.len() && t.articles[m] == self.articles[k];
            assert(article_is(other)(t.articles[m]));
        }
    }

    pub proof fn lemma_delete_tags(self, article_id: u128)
        requires
            self.wf(),
        ensures
            self.delete_tags(article_id).wf(),
            self.delete_tags(article_id).tags_of(article_id) == Seq::<TagRow>::empty(),
            forall|i: int|
                0 <= i < self.delete_tags(article_id).tags.len() ==> (
                #[trigger] self.delete_tags(article_id).tags[i]).article_id != article_id,
    {
        lemma_filter_keeps_apart(
            self.tags,
            tag_not_of(article_id),
            |a: TagRow, b: TagRow| !(a.article_id == b.article_id && a.tag_name == b.tag_name),
        );
        let rest = self.tags.filter(tag_not_of(article_id));
        let at = lemma_filter_positions(self.tags, tag_not_of(article_id));
        assert forall|i: int| 0 <= i < rest.len() implies self.article_with_id(
            (#[trigger] rest[i]).article_id,
        ) is Some by {
            assert(rest[i] == self.tags[at[i]]);
        }
        let gone = rest.filter(tag_of(article_id));
        if gone.len() > 0 {
            lemma_filter_member(rest, tag_of(article_id), gone[0]);
            lemma_filter_member(self.tags, tag_not_of(article_id), gone[0]);
            assert(gone.contains(gone[0]));
        }
        assert(gone =~= Seq::empty());
    }

    pub proof fn lemma_add_tag(self, t: TagRow)
        requires
            self.wf(),
        ensures
            self.add_tag(t).wf(),
    {
    }

    pub proof fn lemma_add_tags(self, article_id: u128, names: Seq<Seq<char>>, now: i64)
        requires
            self.wf(),
        ensures
            self.add_tags(article_id, names, now).wf(),
        decreases names.len(),
    {
        if names.len() > 0 {
            self.lemma_add_tags(article_id, names.drop_last(), now);
            self.add_tags(article_id, names.drop_last(), now).lemma_add_tag(
                TagRow {
                    article_id,
                    tag_name: names.last(),
                    created_at: now,
                    updated_at: now,
                },
            );
        }
    }

    pub proof fn lemma_replace_tags(self, article_id: u128, names: Seq<Seq<char>>, now: i64)
        requires
            self.wf(),
        ensures
            self.replace_tags(article_id, names, now).wf(),
    {
        self.lemma_delete_tags(article_id);
        self.delete_tags(article_id).lemma_add_tags(article_id, names, now);
    }

    pub proof fn lemma_add_favorite(self, f: FavoriteRow)
        requires
            self.wf(),
        ensures
            self.add_favorite(f).wf(),
    {
    }

    pub proof fn lemma_remove_favorite(self, f: FavoriteRow)
        requires
            self.wf(),
        ensures
            self.remove_favorite(f).wf(),
    {
        lemma_filter_keeps_apart(
            self.favorites,
            favorite_is_not(f),
            |a: FavoriteRow, b: FavoriteRow| a != b,
        );
        let rest = self.favorites.filter(favorite_is_not(f));
        let at = lemma_filter_positions(self.favorites, favorite_is_not(f));
        assert forall|i: int| 0 <= i < rest.len() implies self.article_with_id(
            (#[trigger] rest[i]).article_id,
        ) is Some by {
            assert(rest[i] == self.favorites[at[i]]);
        }
    }

    pub proof fn lemma_delete_favorites(self, article_id: u128)
        requires
            self.wf(),
        ensures
            self.delete_favorites(article_id).wf(),
            forall|i: int|
                0 <= i < self.delete_favorites(article_id).favorites.len() ==> (
                #[trigger] self.delete_favorites(article_id).favorites[i]).article_id
                    != article_id,
    {
        lemma_filter_keeps_apart(
            self.favorites,
            favorite_not_of(article_id),
            |a: FavoriteRow, b: FavoriteRow| a != b,
        );
        let rest = self.favorites.filter(favorite_not_of(article_id));
        let at = lemma_filter_positions(self.favorites, favorite_not_of(article_id));
        assert forall|i: int| 0 <= i < rest.len() implies self.article_with_id(
            (#[trigger] rest[i]).article_id,
        ) is Some && rest[i].article_id != article_id by {
            assert(rest[i] == self.favorites[at[i]]);
        }
    }

    pub proof fn lemma_add_follower(self, f: FollowerRow)
        requires
            self.wf(),
        ensures
            self.add_follower(f).wf(),
    {
    }

    pub proof fn lemma_remove_follower(self, user_id: u128, follower_id: u128)
        requires
            self.wf(),
        ensures
            self.remove_follower(user_id, follower_id).wf(),
    {
        lemma_filter_keeps_apart(
            self.followers,
            edge_is_not(user_id, follower_id),
            |a: FollowerRow, b: FollowerRow|
                !(a.user_id == b.user_id && a.follower_id == b.follower_id),
        );
    }

    pub proof fn lemma_insert_comment(self, c: CommentRow)
        requires
            self.wf(),
            self.admits_comment(),
        ensures
            self.insert_comment(c).wf(),
    {
    }

    pub proof fn lemma_delete_comment(self, id: i32)
        requires
            self.wf(),
        ensures
            self.delete_comment(id).wf(),
    {
        lemma_filter_keeps_apart(
            self.comments,
            comment_is_not(id),
            |a: CommentRow, b: CommentRow| a.id != b.id,
        );
        let at = lemma_filter_positions(self.comments, comment_is_not(id));
        let t = self.delete_comment(id);
        assert forall|i: int| 0 <= i < t.comments.len() implies (#[trigger] t.comments[i]).id
            < t.next_comment_id by {
            assert(t.comments[i] == self.comments[at[i]]);
        }
    }
}

} // verus!
