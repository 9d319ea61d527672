//! The article routes: reading one article or a list as a viewer sees them,
//! and creating, updating, deleting, favoriting and unfavoriting an article.

use crate::errors::{
    Details, Error, Reply, MSG_CREATED, MSG_DELETED, MSG_NOT_THE_AUTHOR, MSG_NO_SUCH_ID,
    MSG_NO_SUCH_SLUG, MSG_NO_SUCH_USERNAME, STATUS_CREATED, STATUS_OK,
};
use crate::model::{
    insert_newest_first, lemma_filter_step, lemma_insert_newest_first_at, lemma_rows_push,
    newest_first, page, rows, text_of, ArticleRow, FavoriteRow, Filters, TagRow, Tables,
};
use crate::schemas::article_tag_schema::ArticleTag;
use crate::schemas::articles_schema::{
    Article, ArticleAndAuthor, ArticleChange, ArticleListResponse, ArticlePath, ArticleResponse,
    ArticleResponseInner, ArticlesParams, CreateArticle, CustomDateTime, FeedParams, NewArticle,
    NewFavoriteArticle, UpdateArticle, UserForArticle,
};
use crate::schemas::profile_schema::ProfileResponseInner;
use crate::schemas::users_schema::{clone_text, User};
use crate::slug::{generate_slug, new_v4, slug_of};
use crate::store::Store;
use crate::utils::validation_errors_response;
use vstd::prelude::*;

verus! {

/// How many users have favorited the article.
fn get_favorites_count(store: &Store, article_id: u128) -> (r: usize)
    ensures
        r == store@.favorites_count(article_id),
{
    store.favorites_count(article_id)
}

/// The tag names of the article, in table order.
fn select_tags_on_article(store: &Store, article_id: u128) -> (r: Vec<String>)
    ensures
        rows(r@) == store@.tag_names_of(article_id),
{
    store.tag_names_of(article_id)
}

/// Whether `user_id` has favorited the article, and whether `user_id`
/// follows its author.
fn get_favorited_and_following(store: &Store, article_id: u128, author_id: u128, user_id: u128) -> (r:
    (bool, bool))
    ensures
        r.0 == store@.has_favorite(FavoriteRow { user_id, article_id }),
        r.1 == store@.follows(author_id, user_id),
{
    let favorited = store.has_favorite(NewFavoriteArticle { user_id, article_id });
    let following = store.follows(author_id, user_id);
    (favorited, following)
}

/// The profile of `user` as a viewer sees it who does or does not follow.
pub fn profile_of_user(user: &User, following: bool) -> (r: ProfileResponseInner)
    ensures
        r@.username == user@.username,
        r@.bio == user@.bio,
        r@.following == following,
{
    ProfileResponseInner { username: user.username.clone(), bio: clone_text(&user.bio), following }
}

/// The article under `slug` joined with its author: `None` where there is no
/// such article or its author is not stored.
fn article_and_author(store: &Store, slug: &String) -> (r: Option<ArticleAndAuthor>)
    ensures
        match store@.article_with_slug(slug@) {
            Some(a) => match store@.user_with_id(a.author_id) {
                Some(u) => r matches Some(data) && data.article@ == a && data.author@ == u,
                None => r is None,
            },
            None => r is None,
        },
{
    let article = match store.article_by_slug(slug) {
        Some(article) => article,
        None => {
            return None;
        },
    };
    match store.user_by_id(article.author_id) {
        Some(author) => Some(ArticleAndAuthor { article, author }),
        None => None,
    }
}

/// The article under `slug` as `user_id` sees it, or as an anonymous viewer
/// sees it: the row, the author's profile, the tags, the favorite count and
/// the two flags of the viewer. A slug that no article has, or whose
/// article has no stored author, is not found.
pub fn get_article_response(store: &Store, slug: &String, user_id: Option<u128>) -> (r: Result<
    ArticleResponse,
    Error,
>)
    ensures
        match store@.article_doc(slug@, user_id) {
            Some(doc) => r matches Ok(response) && response@ == doc,
            None => r matches Err(e) && e.is_not_found(MSG_NO_SUCH_SLUG),
        },
{
    let data = match article_and_author(store, slug) {
        Some(data) => data,
        None => {
            return Err(Error::NotFound(Details::Message(MSG_NO_SUCH_SLUG)));
        },
    };
    let article = data.article;
    let author = data.author;
    let (favorited, following) = match user_id {
        Some(user_id) => get_favorited_and_following(store, article.id, author.id, user_id),
        None => (false, false),
    };
    let favorites_count = get_favorites_count(store, article.id);
    let tags = select_tags_on_article(store, article.id);
    Ok(
        ArticleResponse {
            article: ArticleResponseInner {
                slug: article.slug,
                title: article.title,
                description: article.description,
                body: article.body,
                tag_list: tags,
                created_at: CustomDateTime(article.created_at),
                updated_at: CustomDateTime(article.updated_at),
                favorited,
                favorites_count,
                author: profile_of_user(&author, following),
            },
        },
    )
}

/// The slugs of the articles, in the same order.
pub open spec fn slugs_of(articles: Seq<Article>) -> Seq<Seq<char>> {
    Seq::new(articles.len(), |i: int| articles[i].slug@)
}

/// The articles as `user_id` sees them, each looked up by its slug, in the
/// order given, with their number. Where one of them cannot be seen, nothing
/// is returned but that failure.
pub fn get_article_list_response(
    store: &Store,
    articles: &Vec<Article>,
    user_id: Option<u128>,
) -> (r: Result<ArticleListResponse, Error>)
    ensures
        match store@.article_docs(slugs_of(articles@), user_id) {
            Some(docs) => r matches Ok(list) && list@ == docs && list.articles_count
                == articles.len(),
            None => r matches Err(e) && e.is_not_found(MSG_NO_SUCH_SLUG),
        },
{
    let mut list: Vec<ArticleResponseInner> = Vec::new();
    let mut i: usize = 0;
    while i < articles.len()
        invariant
            i <= articles.len(),
            list.len() == i,
            forall|j: int|
                0 <= j < i ==> store@.article_doc(#[trigger] slugs_of(articles@)[j], user_id)
                    == Some(list@[j]@),
        decreases articles.len() - i,
    {
        match get_article_response(store, &articles[i].slug, user_id) {
            Ok(response) => {
                list.push(response.article);
            },
            Err(e) => {
                assert(store@.article_doc(slugs_of(articles@)[i as int], user_id) is None);
                return Err(e);
            },
        }
        i += 1;
    }
    proof {
        let docs = store@.article_docs(slugs_of(articles@), user_id);
        assert(docs is Some);
        assert(rows(list@) =~= docs->0);
    }
    Ok(ArticleListResponse { articles_count: list.len(), articles: list })
}

/// Deletes the tags of an article.
fn delete_tags(store: &mut Store, article_id: u128)
    requires
        old(store).wf(),
    ensures
        final(store).wf(),
        final(store)@ == old(store)@.delete_tags(article_id),
{
    store.delete_tags(article_id)
}

/// Deletes the favorite edges of an article.
fn delete_favorites(store: &mut Store, article_id: u128)
    requires
        old(store).wf(),
    ensures
        final(store).wf(),
        final(store)@ == old(store)@.delete_favorites(article_id),
{
    store.delete_favorites(article_id)
}

/// The tag row of `tag_name` on the article, as it is stored at `now`.
pub open spec fn tag_row(article_id: u128, tag_name: Seq<char>, now: i64) -> TagRow {
    TagRow { article_id, tag_name, created_at: now, updated_at: now }
}

/// Gives the article the tag, and returns the new row; `None`, and no
/// change, where the article has the tag already or is not there.
fn add_tag(store: &mut Store, article_id: u128, tag_name: &String, now: i64) -> (r: Option<
    ArticleTag,
>)
    requires
        old(store).wf(),
    ensures
        final(store).wf(),
        final(store)@ == old(store)@.add_tag(tag_row(article_id, tag_name@, now)),
        r is Some <==> old(store)@.admits_tag(tag_row(article_id, tag_name@, now)),
        r matches Some(row) ==> row@ == tag_row(article_id, tag_name@, now),
{
    let row = ArticleTag {
        article_id,
        tag_name: tag_name.clone(),
        created_at: now,
        updated_at: now,
    };
    let stored = row.clone();
    if store.add_tag(row) {
        Some(stored)
    } else {
        None
    }
}

/// Makes `tags` the tag set of the article: deletes the tags that it has,
/// then gives it each tag of `tags` in order, passing over a tag that occurs
/// again. Returns the rows that came in, which are then all the tags of the
/// article. An article that is not there is an internal error, and nothing
/// changes.
pub fn replace_tags(store: &mut Store, article_id: u128, tags: &Vec<String>, now: i64) -> (r:
    Result<Vec<ArticleTag>, Error>)
    requires
        old(store).wf(),
    ensures
        final(store).wf(),
        old(store)@.article_with_id(article_id) is None ==> final(store)@ == old(store)@ && (
        r matches Err(e) && e.is_internal()),
        old(store)@.article_with_id(article_id) is Some ==> final(store)@
            == old(store)@.replace_tags(article_id, rows(tags@), now) && (r matches Ok(inserted)
            && rows(inserted@) == final(store)@.tags_of(article_id)),
{
    if store.article_by_id(article_id).is_none() {
        return Err(Error::InternalServerError);
    }
    proof {
        old(store)@.lemma_delete_tags(article_id);
    }
    delete_tags(store, article_id);
    let ghost base = store@;
    let ghost names = rows(tags@);
    let mut inserted: Vec<ArticleTag> = Vec::new();
    let mut i: usize = 0;
    assert(names.take(0) =~= Seq::empty());
    assert(rows(inserted@) =~= Seq::<TagRow>::empty());
    while i < tags.len()
        invariant
            i <= tags.len(),
            names == rows(tags@),
            store.wf(),
            store@ == base.add_tags(article_id, names.take(i as int), now),
            rows(inserted@) == store@.tags_of(article_id),
        decreases tags.len() - i,
    {
        let ghost before = store@;
        proof {
            assert(names.take(i + 1).drop_last() =~= names.take(i as int));
            assert(names.take(i + 1).last() == tags@[i as int]@);
        }
        match add_tag(store, article_id, &tags[i], now) {
            Some(row) => {
                proof {
                    lemma_rows_push(inserted@, row);
                    before.tags.lemma_filter_push(row@, crate::model::tag_of(article_id));
                }
                inserted.push(row);
            },
            None => {},
        }
        i += 1;
    }
    assert(names.take(i as int) =~= names);
    Ok(inserted)
}

/// The row of a new article: the slug comes from the id and the title, and
/// both moments are `now`.
pub open spec fn new_article_row(id: u128, author_id: u128, form: CreateArticle, now: i64) -> ArticleRow {
    ArticleRow {
        id,
        author_id,
        slug: slug_of(id, form.title@),
        title: form.title@,
        description: form.description@,
        body: form.body@,
        created_at: now,
        updated_at: now,
    }
}

/// What creating an article under the id `id` does to the store and replies.
///
/// A payload that breaks a field rule is a 400, for the article first and
/// then for the user. An unknown user is a 404. An id or a slug that is
/// taken is a 500. In each of these cases nothing changes. Otherwise the
/// article is stored with its tags, and the reply is a 201 with the article
/// as its author sees it.
pub open spec fn create_article_outcome(
    before: Tables,
    id: u128,
    form: CreateArticle,
    user: UserForArticle,
    now: i64,
    after: Tables,
    r: Result<Reply<ArticleResponse>, Error>,
) -> bool {
    if form.violations().len() > 0 {
        after == before && (r matches Err(e) && e.is_invalid(form.violations()))
    } else if user.violations().len() > 0 {
        after == before && (r matches Err(e) && e.is_invalid(user.violations()))
    } else if before.user_named(user.username@) is None {
        after == before && (r matches Err(e) && e.is_not_found(MSG_NO_SUCH_USERNAME))
    } else {
        let author = before.user_named(user.username@)->0;
        let row = new_article_row(id, author.id, form, now);
        if !before.admits_article(row) {
            after == before && (r matches Err(e) && e.is_internal())
        } else {
            &&& after == before.create_article(row, rows(form.tag_list@), now)
            &&& (r matches Ok(reply) && reply.status == STATUS_CREATED && Some(reply.body@)
                == after.article_doc(row.slug, Some(author.id)))
        }
    }
}

/// Creates an article under the id `id`.
pub fn create_article_with_id(
    store: &mut Store,
    id: u128,
    form: CreateArticle,
    user: UserForArticle,
    now: i64,
) -> (r: Result<Reply<ArticleResponse>, Error>)
    requires
        old(store).wf(),
    ensures
        final(store).wf(),
        create_article_outcome(old(store)@, id, form, user, now, final(store)@, r),
{
    if let Err(validation_errors) = form.validate() {
        return Err(validation_errors_response(validation_errors));
    }
    if let Err(validation_errors) = user.validate() {
        return Err(validation_errors_response(validation_errors));
    }
    let author = match store.user_by_username(&user.username) {
        Some(author) => author,
        None => {
            return Err(Error::NotFound(Details::Message(MSG_NO_SUCH_USERNAME)));
        },
    };
    let slug = generate_slug(id, form.title.as_str());
    let new_article = NewArticle {
        id,
        author_id: author.id,
        slug,
        title: form.title.clone(),
        description: form.description.clone(),
        body: form.body.clone(),
    };
    let row = Article {
        id: new_article.id,
        author_id: new_article.author_id,
        slug: new_article.slug.clone(),
        title: new_article.title,
        description: new_article.description,
        body: new_article.body,
        created_at: now,
        updated_at: now,
    };
    let ghost stored = row@;
    assert(stored == new_article_row(id, author.id, form, now));
    if !store.insert_article(row) {
        return Err(Error::InternalServerError);
    }
    proof {
        old(store)@.lemma_insert_article_found(stored);
        old(store)@.lemma_user_named_has_id(user.username@);
        store@.lemma_replace_tags_frame(id, rows(form.tag_list@), now);
    }
    match replace_tags(store, new_article.id, &form.tag_list, now) {
        Ok(_) => {},
        Err(e) => {
            return Err(e);
        },
    }
    match get_article_response(store, &new_article.slug, Some(new_article.author_id)) {
        Ok(article_response) => Ok(Reply { status: STATUS_CREATED, body: article_response }),
        Err(e) => Err(e),
    }
}

/// Creates an article under a fresh random id: what
/// [`create_article_with_id`] does, for the id that was drawn.
pub fn create_article(store: &mut Store, form: CreateArticle, user: UserForArticle, now: i64) -> (r:
    Result<Reply<ArticleResponse>, Error>)
    requires
        old(store).wf(),
    ensures
        final(store).wf(),
        exists|id: u128|
            create_article_outcome(old(store)@, id, form, user, now, final(store)@, r),
{
    let new_article_id = new_v4();
    create_article_with_id(store, new_article_id, form, user, now)
}

/// Returns one article as an anonymous viewer sees it.
pub fn get_articles_by_slug(store: &Store, path: &ArticlePath) -> (r: Result<
    Reply<ArticleResponse>,
    Error,
>)
    ensures
        match store@.article_doc(path.slug@, None) {
            Some(doc) => r matches Ok(reply) && reply.status == STATUS_OK && reply.body@ == doc,
            None => r matches Err(e) && e.is_not_found(MSG_NO_SUCH_SLUG),
        },
{
    match get_article_response(store, &path.slug, None) {
        Ok(article_response) => Ok(Reply { status: STATUS_OK, body: article_response }),
        Err(e) => Err(e),
    }
}

/// The tag names that an update carries, if it carries any.
pub open spec fn tag_names(tags: Option<Vec<String>>) -> Option<Seq<Seq<char>>> {
    match tags {
        Some(v) => Some(rows(v@)),
        None => None,
    }
}

/// The article row after an update: each field that the payload carries
/// takes the payload's value, a new title also renews the slug, and the
/// moment of the update is `now`. Everything else stays.
pub open spec fn changed_article(a: ArticleRow, form: UpdateArticle, now: i64) -> ArticleRow {
    ArticleRow {
        slug: match form.title {
            Some(t) => slug_of(a.id, t@),
            None => a.slug,
        },
        title: match form.title {
            Some(t) => t@,
            None => a.title,
        },
        description: match form.description {
            Some(t) => t@,
            None => a.description,
        },
        body: match form.body {
            Some(t) => t@,
            None => a.body,
        },
        updated_at: now,
        ..a
    }
}

/// Writes the columns that `change` carries over those of `article`.
fn apply_change(article: Article, change: ArticleChange, now: i64) -> (r: Article)
    ensures
        r@ == (ArticleRow {
            slug: match change.slug {
                Some(t) => t@,
                None => article@.slug,
            },
            title: match change.title {
                Some(t) => t@,
                None => article@.title,
            },
            description: match change.description {
                Some(t) => t@,
                None => article@.description,
            },
            body: match change.body {
                Some(t) => t@,
                None => article@.body,
            },
            updated_at: now,
            ..article@
        }),
{
    Article {
        id: article.id,
        author_id: article.author_id,
        slug: match change.slug {
            Some(t) => t,
            None => article.slug,
        },
        title: match change.title {
            Some(t) => t,
            None => article.title,
        },
        description: match change.description {
            Some(t) => t,
            None => article.description,
        },
        body: match change.body {
            Some(t) => t,
            None => article.body,
        },
        created_at: article.created_at,
        updated_at: now,
    }
}

/// What updating the article under `path` as `user` does to the store and
/// replies.
///
/// A payload that breaks a field rule is a 400, for the article first and
/// then for the user. An unknown user or slug is a 404. A user who is not
/// the author is a 403. A new slug that another article has is a 500. In
/// each of these cases nothing changes. Otherwise the fields that the
/// payload carries are written, the tags are replaced where the payload
/// carries tags, and the reply is a 200 with the article, read again under
/// its slug of now, as its author sees it.
pub open spec fn update_article_outcome(
    before: Tables,
    path: ArticlePath,
    user: UserForArticle,
    form: UpdateArticle,
    now: i64,
    after: Tables,
    r: Result<Reply<ArticleResponse>, Error>,
) -> bool {
    if form.violations().len() > 0 {
        after == before && (r matches Err(e) && e.is_invalid(form.violations()))
    } else if user.violations().len() > 0 {
        after == before && (r matches Err(e) && e.is_invalid(user.violations()))
    } else if before.user_named(user.username@) is None {
        after == before && (r matches Err(e) && e.is_not_found(MSG_NO_SUCH_USERNAME))
    } else if before.article_with_slug(path.slug@) is None {
        after == before && (r matches Err(e) && e.is_not_found(MSG_NO_SUCH_SLUG))
    } else {
        let acting = before.user_named(user.username@)->0;
        let article = before.article_with_slug(path.slug@)->0;
        let row = changed_article(article, form, now);
        if acting.id != article.author_id {
            after == before && (r matches Err(e) && e.is_forbidden(MSG_NOT_THE_AUTHOR))
        } else if !before.admits_article_update(row) {
            after == before && (r matches Err(e) && e.is_internal())
        } else {
            &&& after == before.rewrite_article(row, tag_names(form.tag_list), now)
            &&& (r matches Ok(reply) && reply.status == STATUS_OK && Some(reply.body@)
                == after.article_doc(row.slug, Some(acting.id)))
        }
    }
}

/// Updates an article.
pub fn update_articles_by_slug(
    store: &mut Store,
    path: &ArticlePath,
    user: &UserForArticle,
    form: UpdateArticle,
    now: i64,
) -> (r: Result<Reply<ArticleResponse>, Error>)
    requires
        old(store).wf(),
    ensures
        final(store).wf(),
        update_article_outcome(old(store)@, *path, *user, form, now, final(store)@, r),
{
    if let Err(validation_errors) = form.validate() {
        return Err(validation_errors_response(validation_errors));
    }
    if let Err(validation_errors) = user.validate() {
        return Err(validation_errors_response(validation_errors));
    }
    let acting = match store.user_by_username(&user.username) {
        Some(acting) => acting,
        None => {
            return Err(Error::NotFound(Details::Message(MSG_NO_SUCH_USERNAME)));
        },
    };
    let article = match store.article_by_slug(&path.slug) {
        Some(article) => article,
        None => {
            return Err(Error::NotFound(Details::Message(MSG_NO_SUCH_SLUG)));
        },
    };
    if acting.id != article.author_id {
        return Err(Error::Forbidden(Details::Failure(MSG_NOT_THE_AUTHOR)));
    }
    let slug = match &form.title {
        Some(title) => Some(generate_slug(article.id, title.as_str())),
        None => None,
    };
    let article_change = ArticleChange {
        slug,
        title: form.title,
        description: form.description,
        body: form.body,
    };
    let article_id = article.id;
    let row = apply_change(article, article_change, now);
    let ghost stored = row@;
    let article_slug = row.slug.clone();
    assert(stored == changed_article(old(store)@.article_with_slug(path.slug@)->0, form, now));
    if !store.update_article(row) {
        return Err(Error::InternalServerError);
    }
    proof {
        old(store)@.lemma_article_with_slug_has_id(path.slug@);
        old(store)@.lemma_update_article_found(stored);
        old(store)@.lemma_user_named_has_id(user.username@);
    }
    match form.tag_list {
        Some(tags) => {
            proof {
                store@.lemma_replace_tags_frame(article_id, rows(tags@), now);
            }
            match replace_tags(store, article_id, &tags, now) {
                Ok(_) => {},
                Err(e) => {
                    return Err(e);
                },
            }
        },
        None => {},
    }
    match get_article_response(store, &article_slug, Some(acting.id)) {
        Ok(article_response) => Ok(Reply { status: STATUS_OK, body: article_response }),
        Err(e) => Err(e),
    }
}

/// What deleting the article under `path` as `user` does to the store and
/// replies.
///
/// A username that breaks a field rule is a 400. An unknown user or slug is
/// a 404. A user who is not the author is a 403. In each of these cases
/// nothing changes. Otherwise the tags of the article go, then its favorite
/// edges, then the article, and the reply is a 200.
pub open spec fn delete_article_outcome(
    before: Tables,
    path: ArticlePath,
    user: UserForArticle,
    after: Tables,
    r: Result<Reply<Details>, Error>,
) -> bool {
    if user.violations().len() > 0 {
        after == before && (r matches Err(e) && e.is_invalid(user.violations()))
    } else if before.user_named(user.username@) is None {
        after == before && (r matches Err(e) && e.is_not_found(MSG_NO_SUCH_USERNAME))
    } else if before.article_with_slug(path.slug@) is None {
        after == before && (r matches Err(e) && e.is_not_found(MSG_NO_SUCH_SLUG))
    } else {
        let acting = before.user_named(user.username@)->0;
        let article = before.article_with_slug(path.slug@)->0;
        if acting.id != article.author_id {
            after == before && (r matches Err(e) && e.is_forbidden(MSG_NOT_THE_AUTHOR))
        } else {
            &&& after == before.remove_article(article.id)
            &&& (r matches Ok(reply) && reply.is_message(STATUS_OK, MSG_DELETED))
        }
    }
}

/// Deletes an article.
pub fn delete_articles_by_slug(store: &mut Store, path: &ArticlePath, user: &UserForArticle) -> (r:
    Result<Reply<Details>, Error>)
    requires
        old(store).wf(),
    ensures
        final(store).wf(),
        delete_article_outcome(old(store)@, *path, *user, final(store)@, r),
{
    if let Err(validation_errors) = user.validate() {
        return Err(validation_errors_response(validation_errors));
    }
    let acting = match store.user_by_username(&user.username) {
        Some(acting) => acting,
        None => {
            return Err(Error::NotFound(Details::Message(MSG_NO_SUCH_USERNAME)));
        },
    };
    let article = match store.article_by_slug(&path.slug) {
        Some(article) => article,
        None => {
            return Err(Error::NotFound(Details::Message(MSG_NO_SUCH_SLUG)));
        },
    };
    if acting.id != article.author_id {
        return Err(Error::Forbidden(Details::Failure(MSG_NOT_THE_AUTHOR)));
    }
    proof {
        old(store)@.lemma_article_with_slug_has_id(path.slug@);
        old(store)@.lemma_delete_tags(article.id);
        old(store)@.delete_tags(article.id).lemma_delete_favorites(article.id);
    }
    delete_tags(store, article.id);
    delete_favorites(store, article.id);
    if store.delete_article(article.id) {
        Ok(Reply::message(STATUS_OK, MSG_DELETED))
    } else {
        Err(Error::NotFound(Details::Message(MSG_NO_SUCH_ID)))
    }
}

/// What favoriting the article under `path` as `user` does to the store and
/// replies.
///
/// A username that breaks a field rule is a 400. An unknown user or slug is
/// a 404. In each of these cases nothing changes. Otherwise the edge from
/// the user to the article is there afterwards, once, whether or not it was
/// there before, and the reply is a 201.
pub open spec fn favorite_outcome(
    before: Tables,
    path: ArticlePath,
    user: UserForArticle,
    after: Tables,
    r: Result<Reply<Details>, Error>,
) -> bool {
    if user.violations().len() > 0 {
        after == before && (r matches Err(e) && e.is_invalid(user.violations()))
    } else if before.user_named(user.username@) is None {
        after == before && (r matches Err(e) && e.is_not_found(MSG_NO_SUCH_USERNAME))
    } else if before.article_with_slug(path.slug@) is None {
        after == before && (r matches Err(e) && e.is_not_found(MSG_NO_SUCH_SLUG))
    } else {
        let edge = FavoriteRow {
            user_id: before.user_named(user.username@)->0.id,
            article_id: before.article_with_slug(path.slug@)->0.id,
        };
        &&& after == before.add_favorite(edge)
        &&& (r matches Ok(reply) && reply.is_message(STATUS_CREATED, MSG_CREATED))
    }
}

/// Favorites an article.
pub fn favorite_articles_by_slug(
    store: &mut Store,
    path: &ArticlePath,
    user: &UserForArticle,
) -> (r: Result<Reply<Details>, Error>)
    requires
        old(store).wf(),
    ensures
        final(store).wf(),
        favorite_outcome(old(store)@, *path, *user, final(store)@, r),
{
    if let Err(validation_errors) = user.validate() {
        return Err(validation_errors_response(validation_errors));
    }
    let acting = match store.user_by_username(&user.username) {
        Some(acting) => acting,
        None => {
            return Err(Error::NotFound(Details::Message(MSG_NO_SUCH_USERNAME)));
        },
    };
    let article = match store.article_by_slug(&path.slug) {
        Some(article) => article,
        None => {
            return Err(Error::NotFound(Details::Message(MSG_NO_SUCH_SLUG)));
        },
    };
    let favorite_article = NewFavoriteArticle { user_id: acting.id, article_id: article.id };
    store.add_favorite(favorite_article);
    Ok(Reply::message(STATUS_CREATED, MSG_CREATED))
}

/// What taking back the favorite of `user` on the article under `path` does
/// to the store and replies.
///
/// A username that breaks a field rule is a 400. An unknown user or slug is
/// a 404, and so is an edge that is not there. In each of these cases
/// nothing changes. Otherwise the edge goes and the reply is a 200.
pub open spec fn unfavorite_outcome(
    before: Tables,
    path: ArticlePath,
    user: UserForArticle,
    after: Tables,
    r: Result<Reply<Details>, Error>,
) -> bool {
    if user.violations().len() > 0 {
        after == before && (r matches Err(e) && e.is_invalid(user.violations()))
    } else if before.user_named(user.username@) is None {
        after == before && (r matches Err(e) && e.is_not_found(MSG_NO_SUCH_USERNAME))
    } else if before.article_with_slug(path.slug@) is None {
        after == before && (r matches Err(e) && e.is_not_found(MSG_NO_SUCH_SLUG))
    } else {
        let edge = FavoriteRow {
            user_id: before.user_named(user.username@)->0.id,
            article_id: before.article_with_slug(path.slug@)->0.id,
        };
        if !before.has_favorite(edge) {
            after == before && (r matches Err(e) && e.is_not_found(MSG_NO_SUCH_ID))
        } else {
            &&& after == before.remove_favorite(edge)
            &&& (r matches Ok(reply) && reply.is_message(STATUS_OK, MSG_DELETED))
        }
    }
}

/// Takes a favorite back.
pub fn unfavorite_articles_by_slug(
    store: &mut Store,
    path: &ArticlePath,
    user: &UserForArticle,
) -> (r: Result<Reply<Details>, Error>)
    requires
        old(store).wf(),
    ensures
        final(store).wf(),
        unfavorite_outcome(old(store)@, *path, *user, final(store)@, r),
{
    if let Err(validation_errors) = user.validate() {
        return Err(validation_errors_response(validation_errors));
    }
    let acting = match store.user_by_username(&user.username) {
        Some(acting) => acting,
        None => {
            return Err(Error::NotFound(Details::Message(MSG_NO_SUCH_USERNAME)));
        },
    };
    let article = match store.article_by_slug(&path.slug) {
        Some(article) => article,
        None => {
            return Err(Error::NotFound(Details::Message(MSG_NO_SUCH_SLUG)));
        },
    };
    let edge = NewFavoriteArticle { user_id: acting.id, article_id: article.id };
    if store.remove_favorite(edge) {
        Ok(Reply::message(STATUS_OK, MSG_DELETED))
    } else {
        Err(Error::NotFound(Details::Message(MSG_NO_SUCH_ID)))
    }
}

/// The page size where the request names none.
pub const DEFAULT_LIMIT: usize = 20;

/// The largest page size.
pub const MAX_LIMIT: usize = 100;

/// The page size of a request: what it asks for, 20 where it asks for
/// nothing, and never more than 100.
pub open spec fn page_limit(limit: Option<usize>) -> usize {
    match limit {
        Some(n) => if n <= MAX_LIMIT {
            n
        } else {
            MAX_LIMIT
        },
        None => DEFAULT_LIMIT,
    }
}

/// The number of articles that a request skips: what it asks for, or none.
pub open spec fn page_offset(offset: Option<usize>) -> usize {
    match offset {
        Some(n) => n,
        None => 0,
    }
}

fn limit_of(limit: Option<usize>) -> (r: usize)
    ensures
        r == page_limit(limit),
{
    match limit {
        Some(n) => if n <= MAX_LIMIT {
            n
        } else {
            MAX_LIMIT
        },
        None => DEFAULT_LIMIT,
    }
}

fn offset_of(offset: Option<usize>) -> (r: usize)
    ensures
        r == page_offset(offset),
{
    match offset {
        Some(n) => n,
        None => 0,
    }
}

/// The filters of a listing request.
pub open spec fn filters_of(params: ArticlesParams) -> Filters {
    Filters {
        tag: text_of(params.tag),
        author: text_of(params.author),
        favorited: text_of(params.favorited),
    }
}

/// Whether the article passes the filters of the request.
fn passes_filters(store: &Store, article: &Article, params: &ArticlesParams) -> (r: bool)
    ensures
        r == store@.passes(article@, filters_of(*params)),
{
    if let Some(author_name) = &params.author {
        match store.user_by_id(article.author_id) {
            Some(author) => {
                if !(author.username == *author_name) {
                    return false;
                }
            },
            None => {
                return false;
            },
        }
    }
    if let Some(username_favorited_by) = &params.favorited {
        match store.user_by_username(username_favorited_by) {
            Some(fan) => {
                if !store.has_favorite(
                    NewFavoriteArticle { user_id: fan.id, article_id: article.id },
                ) {
                    return false;
                }
            },
            None => {
                return false;
            },
        }
    }
    if let Some(tag) = &params.tag {
        if !store.has_tag(article.id, tag) {
            return false;
        }
    }
    true
}

/// Puts the article into a list that has its newest article first.
fn insert_sorted(sorted: &mut Vec<Article>, article: Article)
    ensures
        rows(final(sorted)@) == insert_newest_first(rows(old(sorted)@), article@),
{
    let mut at: usize = sorted.len();
    while at > 0 && sorted[at - 1].created_at < article.created_at
        invariant
            at <= sorted.len(),
            forall|j: int| at <= j < sorted.len() ==> sorted@[j].created_at < article.created_at,
        decreases at,
    {
        at -= 1;
    }
    proof {
        lemma_insert_newest_first_at(rows(sorted@), article@, at as int);
        assert(rows(sorted@.insert(at as int, article)) =~= rows(sorted@).insert(
            at as int,
            article@,
        ));
    }
    sorted.insert(at, article);
}

/// The articles with the newest first.
fn sort_newest_first(articles: &Vec<Article>) -> (r: Vec<Article>)
    ensures
        rows(r@) == newest_first(rows(articles@)),
{
    let mut sorted: Vec<Article> = Vec::new();
    let mut i: usize = 0;
    assert(rows(articles@).take(0) =~= Seq::empty());
    assert(rows(sorted@) =~= Seq::empty());
    while i < articles.len()
        invariant
            i <= articles.len(),
            rows(sorted@) == newest_first(rows(articles@).take(i as int)),
        decreases articles.len() - i,
    {
        proof {
            assert(rows(articles@).take(i + 1).drop_last() =~= rows(articles@).take(i as int));
        }
        insert_sorted(&mut sorted, articles[i].clone());
        i += 1;
    }
    assert(rows(articles@).take(i as int) =~= rows(articles@));
    sorted
}

/// The page of the articles that starts behind `offset` articles and has at
/// most `limit` articles.
fn take_page(articles: &Vec<Article>, offset: usize, limit: usize) -> (r: Vec<Article>)
    ensures
        rows(r@) == page(rows(articles@), offset as nat, limit as nat),
{
    let from = if offset <= articles.len() {
        offset
    } else {
        articles.len()
    };
    let to = if limit <= articles.len() - from {
        from + limit
    } else {
        articles.len()
    };
    let mut out: Vec<Article> = Vec::new();
    let mut i: usize = from;
    assert(rows(out@) =~= rows(articles@).subrange(from as int, from as int));
    while i < to
        invariant
            from <= i <= to <= articles.len(),
            rows(out@) == rows(articles@).subrange(from as int, i as int),
        decreases to - i,
    {
        let row = articles[i].clone();
        proof {
            lemma_rows_push(out@, row);
            assert(rows(articles@).subrange(from as int, i + 1) =~= rows(articles@).subrange(
                from as int,
                i as int,
            ).push(row@));
        }
        out.push(row);
        i += 1;
    }
    out
}

/// The slugs of the article rows, in the same order.
pub open spec fn row_slugs(articles: Seq<ArticleRow>) -> Seq<Seq<char>> {
    Seq::new(articles.len(), |i: int| articles[i].slug)
}

/// Returns a page of the articles that pass the filters of the request,
/// newest first, as an anonymous viewer sees them, with their number. An
/// article whose author is not stored cannot be seen, and the reply is then a
/// 404.
pub fn get_articles(store: &Store, params: &ArticlesParams) -> (r: Result<
    Reply<ArticleListResponse>,
    Error,
>)
    ensures
        ({
            let listed = store@.listing(
                filters_of(*params),
                page_offset(params.offset) as nat,
                page_limit(params.limit) as nat,
            );
            match store@.article_docs(row_slugs(listed), None) {
                Some(docs) => r matches Ok(reply) && reply.status == STATUS_OK && reply.body@
                    == docs && reply.body.articles_count == listed.len(),
                None => r matches Err(e) && e.is_not_found(MSG_NO_SUCH_SLUG),
            }
        }),
{
    let all = store.articles();
    let mut matched_articles: Vec<Article> = Vec::new();
    let mut i: usize = 0;
    let ghost passing = store@.passing(filters_of(*params));
    assert(store@.articles.take(0) =~= Seq::empty());
    assert(rows(matched_articles@) =~= Seq::<ArticleRow>::empty());
    while i < all.len()
        invariant
            i <= all.len(),
            rows(all@) == store@.articles,
            passing == store@.passing(filters_of(*params)),
            rows(matched_articles@) == store@.articles.take(i as int).filter(passing),
        decreases all.len() - i,
    {
        proof {
            lemma_filter_step(store@.articles, passing, i as int);
        }
        if passes_filters(store, &all[i], params) {
            let row = all[i].clone();
            proof {
                lemma_rows_push(matched_articles@, row);
            }
            matched_articles.push(row);
        }
        i += 1;
    }
    assert(store@.articles.take(i as int) =~= store@.articles);
    let limit = limit_of(params.limit);
    let offset = offset_of(params.offset);
    let sorted = sort_newest_first(&matched_articles);
    let listed = take_page(&sorted, offset, limit);
    assert(slugs_of(listed@) =~= row_slugs(rows(listed@)));
    match get_article_list_response(store, &listed, None) {
        Ok(article_list_response) => Ok(
            Reply { status: STATUS_OK, body: article_list_response },
        ),
        Err(e) => Err(e),
    }
}

/// Whether `id` is among `ids`.
fn contains_id(ids: &Vec<u128>, id: u128) -> (r: bool)
    ensures
        r == ids@.contains(id),
{
    let mut i: usize = 0;
    while i < ids.len()
        invariant
            i <= ids.len(),
            forall|j: int| 0 <= j < i ==> ids@[j] != id,
        decreases ids.len() - i,
    {
        if ids[i] == id {
            return true;
        }
        i += 1;
    }
    false
}

/// What the feed of `user` replies.
///
/// A username that breaks a field rule is a 400 and an unknown user is a 404.
/// Otherwise the reply is a 200 with a page of the articles by the users
/// that the user follows, newest first, as the user sees them, with their
/// number; or a 404 where one of these articles has no stored author.
pub open spec fn feed_outcome(
    tables: Tables,
    params: FeedParams,
    user: UserForArticle,
    r: Result<Reply<ArticleListResponse>, Error>,
) -> bool {
    if user.violations().len() > 0 {
        r matches Err(e) && e.is_invalid(user.violations())
    } else {
        match tables.user_named(user.username@) {
            None => r matches Err(e) && e.is_not_found(MSG_NO_SUCH_USERNAME),
            Some(reader) => {
                let listed = tables.feed(
                    reader.id,
                    page_offset(params.offset) as nat,
                    page_limit(params.limit) as nat,
                );
                match tables.article_docs(row_slugs(listed), Some(reader.id)) {
                    Some(docs) => r matches Ok(reply) && reply.status == STATUS_OK
                        && reply.body@ == docs && reply.body.articles_count == listed.len(),
                    None => r matches Err(e) && e.is_not_found(MSG_NO_SUCH_SLUG),
                }
            },
        }
    }
}

/// Returns the feed of a user: the articles of the users that the user
/// follows.
pub fn get_articles_feed(store: &Store, params: &FeedParams, user: &UserForArticle) -> (r: Result<
    Reply<ArticleListResponse>,
    Error,
>)
    ensures
        feed_outcome(store@, *params, *user, r),
{
    if let Err(validation_errors) = user.validate() {
        return Err(validation_errors_response(validation_errors));
    }
    let reader = match store.user_by_username(&user.username) {
        Some(reader) => reader,
        None => {
            return Err(Error::NotFound(Details::Message(MSG_NO_SUCH_USERNAME)));
        },
    };
    let limit = limit_of(params.limit);
    let offset = offset_of(params.offset);
    let user_id = reader.id;
    let following_ids = store.followed_by(user_id);
    let all = store.articles();
    let mut articles: Vec<Article> = Vec::new();
    let mut i: usize = 0;
    let ghost by_followed = Tables::by_one_of(following_ids@);
    assert(store@.articles.take(0) =~= Seq::empty());
    assert(rows(articles@) =~= Seq::<ArticleRow>::empty());
    while i < all.len()
        invariant
            i <= all.len(),
            rows(all@) == store@.articles,
            by_followed == Tables::by_one_of(following_ids@),
            rows(articles@) == store@.articles.take(i as int).filter(by_followed),
        decreases all.len() - i,
    {
        proof {
            lemma_filter_step(store@.articles, by_followed, i as int);
        }
        if contains_id(&following_ids, all[i].author_id) {
            let row = all[i].clone();
            proof {
                lemma_rows_push(articles@, row);
            }
            articles.push(row);
        }
        i += 1;
    }
    assert(store@.articles.take(i as int) =~= store@.articles);
    let sorted = sort_newest_first(&articles);
    let listed = take_page(&sorted, offset, limit);
    assert(slugs_of(listed@) =~= row_slugs(rows(listed@)));
    match get_article_list_response(store, &listed, Some(user_id)) {
        Ok(article_response) => Ok(Reply { status: STATUS_OK, body: article_response }),
        Err(e) => Err(e),
    }
}

} // verus!
