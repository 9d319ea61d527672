//! The comment routes: reading the comments on an article, adding a comment
//! and deleting one.

use crate::errors::{
    Details, Error, Reply, MSG_DELETED, MSG_NOT_THE_AUTHOR, MSG_NO_SUCH_ID, MSG_NO_SUCH_SLUG,
    MSG_NO_SUCH_USERNAME, STATUS_CREATED, STATUS_OK,
};
use crate::model::{rows, CommentRow, Tables};
use crate::routes::articles::profile_of_user;
use crate::schemas::article_comment_schema::{
    AddComment, ArticleCommentPath, Comment, CommentAndCommenter, CommentListResponse,
    CommentResponse, CommentResponseInner, NewComment,
};
use crate::schemas::articles_schema::{ArticlePath, CustomDateTime, UserForArticle};
use crate::store::Store;
use crate::utils::validation_errors_response;
use vstd::prelude::*;

verus! {

/// The comment number `comment_id` joined with its author: `None` where there
/// is no such comment or its author is not stored.
fn comment_and_commenter(store: &Store, comment_id: i32) -> (r: Option<CommentAndCommenter>)
    ensures
        match store@.comment_with_id(comment_id) {
            Some(c) => match store@.user_with_id(c.user_id) {
                Some(u) => r matches Some(data) && data.comment@ == c && data.commenter@ == u,
                None => r is None,
            },
            None => r is None,
        },
{
    let comment = match store.comment_by_id(comment_id) {
        Some(comment) => comment,
        None => {
            return None;
        },
    };
    match store.user_by_id(comment.user_id) {
        Some(commenter) => Some(CommentAndCommenter { comment, commenter }),
        None => None,
    }
}

/// The comment number `comment_id` as `user_id` sees it, or as an anonymous
/// viewer sees it. A number that no comment has, or whose comment has no
/// stored author, is not found.
pub fn get_comment_response(store: &Store, comment_id: i32, user_id: Option<u128>) -> (r: Result<
    CommentResponse,
    Error,
>)
    ensures
        match store@.comment_doc(comment_id, user_id) {
            Some(doc) => r matches Ok(response) && response@ == doc,
            None => r matches Err(e) && e.is_not_found(MSG_NO_SUCH_ID),
        },
{
    let data = match comment_and_commenter(store, comment_id) {
        Some(data) => data,
        None => {
            return Err(Error::NotFound(Details::Message(MSG_NO_SUCH_ID)));
        },
    };
    let comment = data.comment;
    let commenter = data.commenter;
    let following = match user_id {
        Some(user_id) => store.follows(commenter.id, user_id),
        None => false,
    };
    Ok(
        CommentResponse {
            comment: CommentResponseInner {
                id: comment.id,
                created_at: CustomDateTime(comment.created_at),
                updated_at: CustomDateTime(comment.updated_at),
                body: comment.body,
                author: profile_of_user(&commenter, following),
            },
        },
    )
}

/// The numbers of the comments, in the same order.
pub open spec fn ids_of(comments: Seq<Comment>) -> Seq<i32> {
    Seq::new(comments.len(), |i: int| comments[i].id)
}

/// The comments as `user_id` sees them, each looked up by its number, in the
/// order given. Where one of them cannot be seen, nothing is returned but
/// that failure.
pub fn get_comment_list_response(
    store: &Store,
    comments: &Vec<Comment>,
    user_id: Option<u128>,
) -> (r: Result<CommentListResponse, Error>)
    ensures
        match store@.comment_docs(ids_of(comments@), user_id) {
            Some(docs) => r matches Ok(list) && list@ == docs,
            None => r matches Err(e) && e.is_not_found(MSG_NO_SUCH_ID),
        },
{
    let mut list: Vec<CommentResponseInner> = Vec::new();
    let mut i: usize = 0;
    while i < comments.len()
        invariant
            i <= comments.len(),
            list.len() == i,
            forall|j: int|
                0 <= j < i ==> store@.comment_doc(#[trigger] ids_of(comments@)[j], user_id)
                    == Some(list@[j]@),
        decreases comments.len() - i,
    {
        match get_comment_response(store, comments[i].id, user_id) {
            Ok(response) => {
                list.push(response.comment);
            },
            Err(e) => {
                assert(store@.comment_doc(ids_of(comments@)[i as int], user_id) is None);
                return Err(e);
            },
        }
        i += 1;
    }
    proof {
        let docs = store@.comment_docs(ids_of(comments@), user_id);
        assert(docs is Some);
        assert(rows(list@) =~= docs->0);
    }
    Ok(CommentListResponse { comments: list })
}

/// The numbers of the comments on an article, in table order.
pub open spec fn comment_ids_of(tables: Tables, article_id: u128) -> Seq<i32> {
    Seq::new(
        tables.comments_of(article_id).len(),
        |i: int| tables.comments_of(article_id)[i].id,
    )
}

/// What reading the comments on the article under `path` as `user` replies.
///
/// A username that breaks a field rule is a 400. An unknown user or slug is
/// a 404, and so is a comment whose author is not stored. Otherwise the
/// reply is a 200 with the comments on the article, in table order, as the
/// user sees them.
pub open spec fn comments_outcome(
    tables: Tables,
    path: ArticlePath,
    user: UserForArticle,
    r: Result<Reply<CommentListResponse>, Error>,
) -> bool {
    if user.violations().len() > 0 {
        r matches Err(e) && e.is_invalid(user.violations())
    } else if tables.user_named(user.username@) is None {
        r matches Err(e) && e.is_not_found(MSG_NO_SUCH_USERNAME)
    } else if tables.article_with_slug(path.slug@) is None {
        r matches Err(e) && e.is_not_found(MSG_NO_SUCH_SLUG)
    } else {
        let viewer = tables.user_named(user.username@)->0.id;
        let article = tables.article_with_slug(path.slug@)->0;
        match tables.comment_docs(comment_ids_of(tables, article.id), Some(viewer)) {
            Some(docs) => r matches Ok(reply) && reply.status == STATUS_OK && reply.body@
                == docs,
            None => r matches Err(e) && e.is_not_found(MSG_NO_SUCH_ID),
        }
    }
}

/// Returns the comments on an article.
pub fn get_articles_comments(store: &Store, path: &ArticlePath, user: &UserForArticle) -> (r:
    Result<Reply<CommentListResponse>, Error>)
    ensures
        comments_outcome(store@, *path, *user, r),
{
    if let Err(validation_errors) = user.validate() {
        return Err(validation_errors_response(validation_errors));
    }
    let viewer = match store.user_by_username(&user.username) {
        Some(viewer) => viewer,
        None => {
            return Err(Error::NotFound(Details::Message(MSG_NO_SUCH_USERNAME)));
        },
    };
    let article = match store.article_by_slug(&path.slug) {
        Some(article) => article,
        None => {
            return Err(Error::NotFound(Details::Message(MSG_NO_SUCH_SLUG)));
        },
    };
    let comments = store.comments_of(article.id);
    assert(ids_of(comments@) =~= comment_ids_of(store@, article.id));
    match get_comment_list_response(store, &comments, Some(viewer.id)) {
        Ok(comment_response) => Ok(Reply { status: STATUS_OK, body: comment_response }),
        Err(e) => Err(e),
    }
}

/// The row of a new comment, before it has its number.
pub open spec fn new_comment_row(
    article_id: u128,
    user_id: u128,
    form: AddComment,
    now: i64,
) -> CommentRow {
    CommentRow { id: 0, article_id, user_id, body: form.body@, created_at: now, updated_at: now }
}

/// What adding a comment to the article under `path` as `user` does to the
/// store and replies.
///
/// A payload that breaks a field rule is a 400, for the comment first and
/// then for the user. An unknown user or slug is a 404. Comment numbers that
/// have run out are a 500. In each of these cases nothing changes. Otherwise
/// the comment is stored under the next number, and the reply is a 201 with
/// the comment as its author sees it.
pub open spec fn add_comment_outcome(
    before: Tables,
    form: AddComment,
    path: ArticlePath,
    user: UserForArticle,
    now: i64,
    after: Tables,
    r: Result<Reply<CommentResponse>, Error>,
) -> bool {
    if form.violations().len() > 0 {
        after == before && (r matches Err(e) && e.is_invalid(form.violations()))
    } else if user.violations().len() > 0 {
        after == before && (r matches Err(e) && e.is_invalid(user.violations()))
    } else if before.user_named(user.username@) is None {
        after == before && (r matches Err(e) && e.is_not_found(MSG_NO_SUCH_USERNAME))
    } else if before.article_with_slug(path.slug@) is None {
        after == before && (r matches Err(e) && e.is_not_found(MSG_NO_SUCH_SLUG))
    } else if !before.admits_comment() {
        after == before && (r matches Err(e) && e.is_internal())
    } else {
        let author = before.user_named(user.username@)->0;
        let article = before.article_with_slug(path.slug@)->0;
        &&& after == before.insert_comment(new_comment_row(article.id, author.id, form, now))
        &&& (r matches Ok(reply) && reply.status == STATUS_CREATED && Some(reply.body@)
            == after.comment_doc(before.next_comment_id, Some(author.id)))
    }
}

/// Adds a comment to an article.
pub fn add_articles_comments(
    store: &mut Store,
    form: AddComment,
    path: &ArticlePath,
    user: &UserForArticle,
    now: i64,
) -> (r: Result<Reply<CommentResponse>, Error>)
    requires
        old(store).wf(),
    ensures
        final(store).wf(),
        add_comment_outcome(old(store)@, form, *path, *user, now, final(store)@, r),
{
    if let Err(validation_errors) = form.validate() {
        return Err(validation_errors_response(validation_errors));
    }
    if let Err(validation_errors) = user.validate() {
        return Err(validation_errors_response(validation_errors));
    }
    let author = match store.user_by_username(&user.username) {
        Some(author) => author,
        None => {
            return Err(Error::NotFound(Details::Message(MSG_NO_SUCH_USERNAME)));
        },
    };
    let article = match store.article_by_slug(&path.slug) {
        Some(article) => article,
        None => {
            return Err(Error::NotFound(Details::Message(MSG_NO_SUCH_SLUG)));
        },
    };
    let new_comment = NewComment { article_id: article.id, user_id: author.id, body: form.body };
    let row = Comment {
        id: 0,
        article_id: new_comment.article_id,
        user_id: new_comment.user_id,
        body: new_comment.body,
        created_at: now,
        updated_at: now,
    };
    proof {
        old(store)@.lemma_insert_comment_found(row@);
        old(store)@.lemma_user_named_has_id(user.username@);
    }
    let comment_id = match store.insert_comment(row) {
        Some(comment_id) => comment_id,
        None => {
            return Err(Error::InternalServerError);
        },
    };
    match get_comment_response(store, comment_id, Some(author.id)) {
        Ok(comment_response) => Ok(Reply { status: STATUS_CREATED, body: comment_response }),
        Err(e) => Err(e),
    }
}

/// What deleting the comment under `path` as `user` does to the store and
/// replies.
///
/// A username that breaks a field rule is a 400. An unknown comment or user
/// is a 404. A user who did not write the comment is a 403. In each of these
/// cases nothing changes. Otherwise the comment goes and the reply is a 200.
pub open spec fn delete_comment_outcome(
    before: Tables,
    path: ArticleCommentPath,
    user: UserForArticle,
    after: Tables,
    r: Result<Reply<Details>, Error>,
) -> bool {
    if user.violations().len() > 0 {
        after == before && (r matches Err(e) && e.is_invalid(user.violations()))
    } else if before.comment_with_id(path.comment_id) is None {
        after == before && (r matches Err(e) && e.is_not_found(MSG_NO_SUCH_ID))
    } else if before.user_named(user.username@) is None {
        after == before && (r matches Err(e) && e.is_not_found(MSG_NO_SUCH_USERNAME))
    } else if before.user_named(user.username@)->0.id != before.comment_with_id(
        path.comment_id,
    )->0.user_id {
        after == before && (r matches Err(e) && e.is_forbidden(MSG_NOT_THE_AUTHOR))
    } else {
        &&& after == before.delete_comment(path.comment_id)
        &&& (r matches Ok(reply) && reply.is_message(STATUS_OK, MSG_DELETED))
    }
}

/// Deletes a comment.
pub fn delete_articles_comments(
    store: &mut Store,
    path: &ArticleCommentPath,
    user: &UserForArticle,
) -> (r: Result<Reply<Details>, Error>)
    requires
        old(store).wf(),
    ensures
        final(store).wf(),
        delete_comment_outcome(old(store)@, *path, *user, final(store)@, r),
{
    if let Err(validation_errors) = user.validate() {
        return Err(validation_errors_response(validation_errors));
    }
    let comment = match store.comment_by_id(path.comment_id) {
        Some(comment) => comment,
        None => {
            return Err(Error::NotFound(Details::Message(MSG_NO_SUCH_ID)));
        },
    };
    let acting = match store.user_by_username(&user.username) {
        Some(acting) => acting,
        None => {
            return Err(Error::NotFound(Details::Message(MSG_NO_SUCH_USERNAME)));
        },
    };
    if acting.id != comment.user_id {
        return Err(Error::Forbidden(Details::Failure(MSG_NOT_THE_AUTHOR)));
    }
    if store.delete_comment(path.comment_id) {
        Ok(Reply::message(STATUS_OK, MSG_DELETED))
    } else {
        Err(Error::NotFound(Details::Message(MSG_NO_SUCH_ID)))
    }
}

} // verus!
