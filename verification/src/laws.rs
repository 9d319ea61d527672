//! What holds of the routes taken together.

use crate::errors::{
    Details, Error, Reply, MSG_NOT_THE_AUTHOR, MSG_SELF_FOLLOW, STATUS_FORBIDDEN,
    STATUS_UNPROCESSABLE_ENTITY,
};
use crate::model::{
    article_is, article_is_not, distinct, edge_is_not, favorite_of, is_newest_first,
    lemma_filter_member, lemma_filter_positions, lemma_first_match_some,
    lemma_insert_newest_first, newest_first, rows, tag_of, ArticleRow, FavoriteRow, Filters,
    Tables,
};
use crate::routes::articles::{
    changed_article, create_article_outcome, delete_article_outcome, favorite_outcome,
    new_article_row, tag_row, update_article_outcome,
};
use crate::errors::{MSG_AUTHENTICATED, STATUS_CREATED};
use crate::routes::profile::{follow_outcome, unfollow_outcome};
use crate::routes::users::{login_outcome, new_user_row, register_outcome};
use crate::schemas::users_schema::{UserLogin, UserRegister};
use crate::utils::password_check;
use crate::validation::{email_violations, password_violations, MSG_EMAIL};
use vstd::utf8::encode_utf8;
use crate::schemas::articles_schema::{
    ArticlePath, ArticleResponse, CreateArticle, UpdateArticle, UserForArticle,
};
use crate::schemas::profile_schema::ProfileResponse;
use vstd::prelude::*;

verus! {

impl Tables {
    /// An article has a tag exactly if the tag is among its tag names.
    pub proof fn lemma_has_tag_iff(self, article_id: u128, name: Seq<char>)
        ensures
            self.has_tag(article_id, name) <==> self.tag_names_of(article_id).contains(name),
    {
        let kept = self.tags_of(article_id);
        let names = self.tag_names_of(article_id);
        let at = lemma_filter_positions(self.tags, tag_of(article_id));
        if self.has_tag(article_id, name) {
            let i = choose|i: int|
                0 <= i < self.tags.len() && (#[trigger] self.tags[i]).article_id == article_id
                    && self.tags[i].tag_name == name;
            lemma_filter_member(self.tags, tag_of(article_id), self.tags[i]);
            assert(self.tags.contains(self.tags[i]));
            let k = choose|k: int| 0 <= k < kept.len() && kept[k] == self.tags[i];
            assert(names[k] == name);
        }
        if names.contains(name) {
            let k = choose|k: int| 0 <= k < names.len() && names[k] == name;
            assert(kept[k] == self.tags[at[k]]);
            assert(self.tags[at[k]].article_id == article_id);
        }
    }

    /// After tags were added to an article that is there, its tag names are
    /// those it had and those that were added.
    pub proof fn lemma_add_tags_names(self, article_id: u128, names: Seq<Seq<char>>, now: i64)
        requires
            self.article_with_id(article_id) is Some,
        ensures
            forall|name: Seq<char>|
                #[trigger] self.add_tags(article_id, names, now).tag_names_of(
                    article_id,
                ).contains(name) <==> self.tag_names_of(article_id).contains(name)
                    || names.contains(name),
        decreases names.len(),
    {
        let after = self.add_tags(article_id, names, now);
        if names.len() == 0 {
        } else {
            let before = self.add_tags(article_id, names.drop_last(), now);
            let t = tag_row(article_id, names.last(), now);
            self.lemma_add_tags_names(article_id, names.drop_last(), now);
            self.lemma_add_tags_frame(article_id, names.drop_last(), now);
            before.lemma_has_tag_iff(article_id, names.last());
            assert(after == before.add_tag(t));
            if before.admits_tag(t) {
                before.tags.lemma_filter_push(t, tag_of(article_id));
                assert(after.tag_names_of(article_id) =~= before.tag_names_of(article_id).push(
                    names.last(),
                ));
            }
            assert forall|name: Seq<char>| #[trigger]
                after.tag_names_of(article_id).contains(name) <==> self.tag_names_of(
                    article_id,
                ).contains(name) || names.contains(name) by {
                let old_names = before.tag_names_of(article_id);
                let new_names = after.tag_names_of(article_id);
                if names.contains(name) {
                    let k = choose|k: int| 0 <= k < names.len() && names[k] == name;
                    if k < names.len() - 1 {
                        assert(names.drop_last()[k] == name);
                    }
                }
                if names.drop_last().contains(name) {
                    let k = choose|k: int|
                        0 <= k < names.drop_last().len() && names.drop_last()[k] == name;
                    assert(names[k] == name);
                }
                if before.admits_tag(t) {
                    if new_names.contains(name) {
                        let k = choose|k: int| 0 <= k < new_names.len() && new_names[k] == name;
                        if k < old_names.len() {
                            assert(old_names[k] == name);
                        } else {
                            assert(names[names.len() - 1] == name);
                        }
                    }
                    if old_names.contains(name) {
                        let k = choose|k: int| 0 <= k < old_names.len() && old_names[k] == name;
                        assert(new_names[k] == name);
                    }
                    if name == names.last() {
                        assert(new_names[new_names.len() - 1] == name);
                    }
                } else {
                    if name == names.last() {
                        assert(old_names.contains(name));
                    }
                }
            }
        }
    }

    /// After its tags were replaced, an article that is there has exactly the
    /// given tags, as a set.
    pub proof fn lemma_replace_tags_names(self, article_id: u128, names: Seq<Seq<char>>, now: i64)
        requires
            self.wf(),
            self.article_with_id(article_id) is Some,
        ensures
            self.replace_tags(article_id, names, now).tag_names_of(article_id).to_set()
                == names.to_set(),
    {
        let cleared = self.delete_tags(article_id);
        self.lemma_delete_tags(article_id);
        cleared.lemma_add_tags_names(article_id, names, now);
        assert(cleared.tag_names_of(article_id) =~= Seq::empty());
        let got = self.replace_tags(article_id, names, now).tag_names_of(article_id);
        assert forall|name: Seq<char>| got.to_set().contains(name) <==> names.to_set().contains(
            name,
        ) by {
            assert(got.contains(name) <==> cleared.tag_names_of(article_id).contains(name)
                || names.contains(name));
        }
        assert(got.to_set() =~= names.to_set());
    }

    /// No favorite edge ends at an article that is not there.
    pub proof fn lemma_no_favorites_of_missing(self, article_id: u128)
        requires
            self.wf(),
            self.article_with_id(article_id) is None,
        ensures
            self.favorites_count(article_id) == 0,
    {
        let kept = self.favorites_of(article_id);
        let at = lemma_filter_positions(self.favorites, favorite_of(article_id));
        if kept.len() > 0 {
            assert(kept[0] == self.favorites[at[0]]);
            assert(self.article_with_id(self.favorites[at[0]].article_id) is Some);
        }
    }

    /// After an edge was removed, it is not there.
    pub proof fn lemma_removed_follower_is_gone(self, user_id: u128, follower_id: u128)
        ensures
            !self.remove_follower(user_id, follower_id).follows(user_id, follower_id),
    {
        let after = self.remove_follower(user_id, follower_id);
        let at = lemma_filter_positions(self.followers, edge_is_not(user_id, follower_id));
        if after.follows(user_id, follower_id) {
            let i = choose|i: int|
                0 <= i < after.followers.len() && (#[trigger] after.followers[i]).user_id
                    == user_id && after.followers[i].follower_id == follower_id;
            assert(after.followers[i] == self.followers[at[i]]);
        }
    }
}

/// An article that has just been created can be read under its slug by any
/// viewer; its tags are then the tags it was created with, each once, and
/// nobody has favorited it.
pub proof fn law_created_article_is_read_back(
    before: Tables,
    article: ArticleRow,
    tags: Seq<Seq<char>>,
    now: i64,
    viewer: Option<u128>,
)
    requires
        before.wf(),
        before.admits_article(article),
        before.user_with_id(article.author_id) is Some,
    ensures
        ({
            let after = before.create_article(article, tags, now);
            &&& after.wf()
            &&& after.article_doc(article.slug, viewer) matches Some(doc) && {
                &&& doc.slug == article.slug
                &&& doc.title == article.title
                &&& doc.description == article.description
                &&& doc.body == article.body
                &&& doc.tag_list.to_set() == tags.to_set()
                &&& doc.tag_list == distinct(tags)
                &&& doc.favorites_count == 0
                &&& !doc.favorited
            }
        }),
{
    let stored = before.insert_article(article);
    let after = before.create_article(article, tags, now);
    before.lemma_insert_article(article);
    before.lemma_insert_article_found(article);
    before.lemma_no_favorites_of_missing(article.id);
    stored.lemma_replace_tags(article.id, tags, now);
    stored.lemma_replace_tags_frame(article.id, tags, now);
    stored.lemma_replace_tags_names(article.id, tags, now);
    stored.lemma_replace_tags_in_order(article.id, tags, now);
    let kept = before.favorites_of(article.id);
    assert(kept.len() == 0);
    if after.has_favorite(FavoriteRow { user_id: viewer->0, article_id: article.id }) {
        lemma_filter_member(
            before.favorites,
            favorite_of(article.id),
            FavoriteRow { user_id: viewer->0, article_id: article.id },
        );
        assert(kept.contains(FavoriteRow { user_id: viewer->0, article_id: article.id }));
    }
}

/// An update that carries no description, no body and no tags leaves the
/// description, the body and the tags of the article as they were.
pub proof fn law_update_keeps_what_it_does_not_carry(
    before: Tables,
    path: ArticlePath,
    user: UserForArticle,
    form: UpdateArticle,
    now: i64,
    after: Tables,
    r: Result<Reply<ArticleResponse>, Error>,
    viewer: Option<u128>,
)
    requires
        before.wf(),
        update_article_outcome(before, path, user, form, now, after, r),
        r is Ok,
        form.description is None,
        form.body is None,
        form.tag_list is None,
    ensures
        before.article_doc(path.slug@, viewer) matches Some(was) && {
            &&& r->Ok_0.body@.description == was.description
            &&& r->Ok_0.body@.body == was.body
            &&& r->Ok_0.body@.tag_list == was.tag_list
        },
{
    let acting = before.user_named(user.username@)->0;
    let article = before.article_with_slug(path.slug@)->0;
    let row = changed_article(article, form, now);
    before.lemma_article_with_slug_has_id(path.slug@);
    before.lemma_update_article_found(row);
    before.lemma_user_named_has_id(user.username@);
}

/// An update by a user who is not the author is refused with a 403 and
/// changes nothing.
pub proof fn law_update_by_a_stranger_changes_nothing(
    before: Tables,
    path: ArticlePath,
    user: UserForArticle,
    form: UpdateArticle,
    now: i64,
    after: Tables,
    r: Result<Reply<ArticleResponse>, Error>,
)
    requires
        update_article_outcome(before, path, user, form, now, after, r),
        form.violations().len() == 0,
        user.violations().len() == 0,
        before.user_named(user.username@) is Some,
        before.article_with_slug(path.slug@) is Some,
        before.user_named(user.username@)->0.id != before.article_with_slug(
            path.slug@,
        )->0.author_id,
    ensures
        after == before,
        r matches Err(e) && e.is_forbidden(MSG_NOT_THE_AUTHOR) && e.status() == STATUS_FORBIDDEN,
{
}

/// A deletion by a user who is not the author is refused with a 403 and
/// changes nothing.
pub proof fn law_delete_by_a_stranger_changes_nothing(
    before: Tables,
    path: ArticlePath,
    user: UserForArticle,
    after: Tables,
    r: Result<Reply<Details>, Error>,
)
    requires
        delete_article_outcome(before, path, user, after, r),
        user.violations().len() == 0,
        before.user_named(user.username@) is Some,
        before.article_with_slug(path.slug@) is Some,
        before.user_named(user.username@)->0.id != before.article_with_slug(
            path.slug@,
        )->0.author_id,
    ensures
        after == before,
        r matches Err(e) && e.is_forbidden(MSG_NOT_THE_AUTHOR) && e.status() == STATUS_FORBIDDEN,
{
}

/// Favoriting an article a second time succeeds like the first time and
/// changes nothing: the edge is there once.
pub proof fn law_favorite_twice_is_favorite_once(
    before: Tables,
    path: ArticlePath,
    user: UserForArticle,
    once: Tables,
    first: Result<Reply<Details>, Error>,
    twice: Tables,
    second: Result<Reply<Details>, Error>,
)
    requires
        before.wf(),
        favorite_outcome(before, path, user, once, first),
        favorite_outcome(once, path, user, twice, second),
        first is Ok,
    ensures
        second is Ok,
        twice == once,
        ({
            let edge = FavoriteRow {
                user_id: before.user_named(user.username@)->0.id,
                article_id: before.article_with_slug(path.slug@)->0.id,
            };
            once.favorites.to_multiset().count(edge) == 1
        }),
{
    let edge = FavoriteRow {
        user_id: before.user_named(user.username@)->0.id,
        article_id: before.article_with_slug(path.slug@)->0.id,
    };
    before.lemma_article_with_slug_has_id(path.slug@);
    before.lemma_add_favorite(edge);
    assert(once.has_favorite(edge)) by {
        if before.has_favorite(edge) {
        } else {
            assert(once.favorites[before.favorites.len() as int] == edge);
        }
    }
    assert(once.favorites.no_duplicates());
    once.favorites.lemma_multiset_has_no_duplicates();
    once.favorites.to_multiset_ensures();
}

/// Nobody follows themself: the attempt is refused with a 422 and changes
/// nothing.
pub proof fn law_nobody_follows_themself(
    before: Tables,
    target: Seq<char>,
    acting: u128,
    now: i64,
    after: Tables,
    r: Result<Reply<ProfileResponse>, Error>,
)
    requires
        follow_outcome(before, target, acting, now, after, r),
        before.user_named(target) is Some,
        before.user_named(target)->0.id == acting,
    ensures
        after == before,
        r matches Err(e) && e.is_unprocessable(MSG_SELF_FOLLOW) && e.status()
            == STATUS_UNPROCESSABLE_ENTITY,
{
}

/// Following a user twice and unfollowing once leaves the user unfollowed:
/// the second follow changes nothing, the unfollow succeeds, and the profile
/// then shows the user as not followed.
pub proof fn law_follow_twice_unfollow_once(
    before: Tables,
    target: Seq<char>,
    acting: u128,
    now: i64,
    once: Tables,
    first: Result<Reply<ProfileResponse>, Error>,
    twice: Tables,
    second: Result<Reply<ProfileResponse>, Error>,
    after: Tables,
    third: Result<Reply<ProfileResponse>, Error>,
)
    requires
        before.wf(),
        follow_outcome(before, target, acting, now, once, first),
        follow_outcome(once, target, acting, now, twice, second),
        unfollow_outcome(twice, target, acting, after, third),
        first is Ok,
    ensures
        second is Ok,
        twice == once,
        third is Ok,
        after.profile_of(target, Some(acting)) matches Some(profile) && !profile.following,
{
    let user = before.user_named(target)->0;
    let edge = crate::routes::profile::follow_edge(user.id, acting, now);
    assert(once.follows(user.id, acting)) by {
        if before.follows(user.id, acting) {
        } else {
            assert(once.followers[before.followers.len() as int] == edge);
        }
    }
    once.lemma_removed_follower_is_gone(user.id, acting);
}

/// A user who has just registered can log in with the same email and
/// password.
pub proof fn law_registered_user_logs_in(
    before: Tables,
    id: u128,
    hash: Seq<char>,
    form: UserRegister,
    now: i64,
    after: Tables,
    registered: Result<Reply<Details>, Error>,
    credentials: UserLogin,
    logged_in: Result<Reply<Details>, Error>,
)
    requires
        register_outcome(before, id, hash, form, now, after, registered),
        registered is Ok,
        password_check(encode_utf8(form.password@), hash) == Some(true),
        credentials.email@ == form.email@,
        credentials.password@ == form.password@,
        login_outcome(after, credentials, logged_in),
    ensures
        logged_in matches Ok(reply) && reply.is_message(STATUS_CREATED, MSG_AUTHENTICATED),
{
    before.lemma_insert_user_found(new_user_row(id, hash, form, now));
    assert(form.violations().len() == 0);
    assert(credentials.violations() =~= email_violations(form.email@, Some(MSG_EMAIL))
        + password_violations(form.password@));
}

/// The distinct elements of a sequence are its elements, and none of them
/// occurs twice.
pub proof fn law_distinct_keeps_each_once<T>(s: Seq<T>)
    ensures
        distinct(s).no_duplicates(),
        forall|x: T| #[trigger] distinct(s).contains(x) <==> s.contains(x),
    decreases s.len(),
{
    if s.len() > 0 {
        law_distinct_keeps_each_once(s.drop_last());
        let before = distinct(s.drop_last());
        assert forall|x: T| #[trigger] distinct(s).contains(x) <==> s.contains(x) by {
            if s.contains(x) {
                let k = choose|k: int| 0 <= k < s.len() && s[k] == x;
                if k < s.len() - 1 {
                    assert(s.drop_last()[k] == x);
                    assert(s.drop_last().contains(x));
                    assert(distinct(s.drop_last()).contains(x));
                    let m = choose|m: int| 0 <= m < before.len() && before[m] == x;
                    assert(distinct(s)[m] == x);
                } else if !before.contains(x) {
                    assert(distinct(s)[before.len() as int] == x);
                }
            }
            if distinct(s).contains(x) {
                let m = choose|m: int| 0 <= m < distinct(s).len() && distinct(s)[m] == x;
                if m < before.len() {
                    assert(before[m] == x);
                    assert(distinct(s.drop_last()).contains(x));
                    assert(s.drop_last().contains(x));
                    let k = choose|k: int| 0 <= k < s.drop_last().len() && s.drop_last()[k] == x;
                    assert(s[k] == x);
                } else {
                    assert(s[s.len() - 1] == x);
                }
            }
        }
    }
}

/// Sorting the articles newest first puts the newest first and neither adds
/// nor loses an article.
pub proof fn law_newest_first_sorts(s: Seq<ArticleRow>)
    ensures
        is_newest_first(newest_first(s)),
        newest_first(s).to_multiset() == s.to_multiset(),
    decreases s.len(),
{
    broadcast use vstd::seq_lib::group_to_multiset_ensures;

    if s.len() > 0 {
        law_newest_first_sorts(s.drop_last());
        lemma_insert_newest_first(newest_first(s.drop_last()), s.last());
        assert(s =~= s.drop_last().push(s.last()));
    }
}

/// A listing has its newest article first, and lists only articles that pass
/// its filters.
pub proof fn law_listing_is_newest_first(tables: Tables, filters: Filters, offset: nat, limit: nat)
    ensures
        is_newest_first(tables.listing(filters, offset, limit)),
        forall|i: int|
            0 <= i < tables.listing(filters, offset, limit).len() ==> tables.passes(
                #[trigger] tables.listing(filters, offset, limit)[i],
                filters,
            ),
        tables.listing(filters, offset, limit).len() <= limit,
{
    broadcast use vstd::seq_lib::group_to_multiset_ensures;

    let passing = tables.articles.filter(tables.passing(filters));
    let sorted = newest_first(passing);
    let listed = tables.listing(filters, offset, limit);
    law_newest_first_sorts(passing);
    let from = if offset <= sorted.len() {
        offset as int
    } else {
        sorted.len() as int
    };
    assert forall|i: int| 0 <= i < listed.len() implies tables.passes(
        #[trigger] listed[i],
        filters,
    ) by {
        assert(listed[i] == sorted[from + i]);
        assert(sorted.to_multiset().contains(sorted[from + i]));
        assert(passing.contains(listed[i]));
        lemma_filter_member(tables.articles, tables.passing(filters), listed[i]);
    }
    assert forall|i: int, j: int| 0 <= i < j < listed.len() implies (#[trigger] listed[i]).created_at
        >= (#[trigger] listed[j]).created_at by {
        assert(sorted[from + i].created_at >= sorted[from + j].created_at);
    }
}

/// Reading an article right after creating it: whoever reads it under the
/// slug of the reply sees the tags it was created with, as a set, and no
/// favorite.
pub proof fn law_create_then_get(
    before: Tables,
    id: u128,
    form: CreateArticle,
    user: UserForArticle,
    now: i64,
    after: Tables,
    r: Result<Reply<ArticleResponse>, Error>,
    viewer: Option<u128>,
)
    requires
        before.wf(),
        create_article_outcome(before, id, form, user, now, after, r),
        r is Ok,
    ensures
        after.article_doc(r->Ok_0.body@.slug, viewer) matches Some(doc) && {
            &&& doc.tag_list.to_set() == rows(form.tag_list@).to_set()
            &&& doc.favorites_count == 0
            &&& doc.title == form.title@
            &&& doc.description == form.description@
            &&& doc.body == form.body@
        },
{
    let author = before.user_named(user.username@)->0;
    let row = new_article_row(id, author.id, form, now);
    before.lemma_user_named_has_id(user.username@);
    law_created_article_is_read_back(before, row, rows(form.tag_list@), now, viewer);
    law_created_article_is_read_back(before, row, rows(form.tag_list@), now, Some(author.id));
}

impl Tables {
    /// After tags were added to an article that is there and had none, its
    /// tag names are the names that were added, each once, in the order in
    /// which they first occur.
    pub proof fn lemma_add_tags_in_order(self, article_id: u128, names: Seq<Seq<char>>, now: i64)
        requires
            self.article_with_id(article_id) is Some,
            self.tag_names_of(article_id) == Seq::<Seq<char>>::empty(),
        ensures
            self.add_tags(article_id, names, now).tag_names_of(article_id) == distinct(names),
        decreases names.len(),
    {
        if names.len() > 0 {
            let before = self.add_tags(article_id, names.drop_last(), now);
            let t = tag_row(article_id, names.last(), now);
            self.lemma_add_tags_in_order(article_id, names.drop_last(), now);
            self.lemma_add_tags_frame(article_id, names.drop_last(), now);
            before.lemma_has_tag_iff(article_id, names.last());
            if before.admits_tag(t) {
                before.tags.lemma_filter_push(t, tag_of(article_id));
                assert(before.add_tag(t).tag_names_of(article_id) =~= before.tag_names_of(
                    article_id,
                ).push(names.last()));
            }
        } else {
            assert(self.tag_names_of(article_id) =~= distinct(names));
        }
    }

    /// After its tags were replaced, an article that is there has the given
    /// tags and no others: each once, in the order in which they first occur.
    pub proof fn lemma_replace_tags_in_order(
        self,
        article_id: u128,
        names: Seq<Seq<char>>,
        now: i64,
    )
        requires
            self.wf(),
            self.article_with_id(article_id) is Some,
        ensures
            self.replace_tags(article_id, names, now).tag_names_of(article_id) == distinct(
                names,
            ),
    {
        let cleared = self.delete_tags(article_id);
        self.lemma_delete_tags(article_id);
        assert(cleared.tag_names_of(article_id) =~= Seq::empty());
        cleared.lemma_add_tags_in_order(article_id, names, now);
    }
}

/// An update that carries tags replaces the tags of the article: afterwards
/// the article has the tags of the update and no others, each once, in the
/// order in which they first occur.
pub proof fn law_update_replaces_the_tags(
    before: Tables,
    path: ArticlePath,
    user: UserForArticle,
    form: UpdateArticle,
    now: i64,
    after: Tables,
    r: Result<Reply<ArticleResponse>, Error>,
)
    requires
        before.wf(),
        update_article_outcome(before, path, user, form, now, after, r),
        r is Ok,
        form.tag_list is Some,
    ensures
        r->Ok_0.body@.tag_list == distinct(rows(form.tag_list->0@)),
{
    let article = before.article_with_slug(path.slug@)->0;
    let row = changed_article(article, form, now);
    let names = rows(form.tag_list->0@);
    let written = before.update_article(row);
    before.lemma_article_with_slug_has_id(path.slug@);
    before.lemma_update_article(row);
    before.lemma_update_article_found(row);
    written.lemma_replace_tags_frame(row.id, names, now);
    written.lemma_replace_tags_in_order(row.id, names, now);
}

/// Deleting an article takes its tags and its favorite edges along: the
/// store keeps its constraints, the article cannot be found any more, and no
/// tag and no favorite refers to it.
pub proof fn law_removed_article_leaves_nothing(before: Tables, id: u128)
    requires
        before.wf(),
        before.article_with_id(id) is Some,
    ensures
        ({
            let after = before.remove_article(id);
            &&& after.wf()
            &&& after.article_with_id(id) is None
            &&& after.tag_names_of(id) == Seq::<Seq<char>>::empty()
            &&& after.favorites_count(id) == 0
            &&& after.users == before.users
            &&& after.followers == before.followers
            &&& after.comments == before.comments
        }),
{
    let untagged = before.delete_tags(id);
    let unloved = untagged.delete_favorites(id);
    let after = before.remove_article(id);
    before.lemma_delete_tags(id);
    untagged.lemma_delete_favorites(id);
    unloved.lemma_delete_article(id);
    let at = lemma_filter_positions(unloved.articles, article_is_not(id));
    if after.article_with_id(id) is Some {
        let k = lemma_first_match_some(after.articles, article_is(id));
        assert(after.articles[k] == unloved.articles[at[k]]);
    }
    after.lemma_no_favorites_of_missing(id);
    assert(after.tags_of(id) == untagged.tags_of(id));
    assert(after.tag_names_of(id) =~= Seq::empty());
}

} // verus!