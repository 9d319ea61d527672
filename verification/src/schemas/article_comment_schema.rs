//! Comments: the stored row, the payloads and the bodies of the comment
//! routes.

use crate::model::{rows, CommentDoc, CommentRow};
use crate::schemas::articles_schema::CustomDateTime;
use crate::schemas::profile_schema::ProfileResponseInner;
use crate::schemas::users_schema::User;
use crate::validation::{check_nonempty, nonempty_violations, FieldError, ValidationErrors};
use vstd::prelude::*;

verus! {

/// A stored comment.
#[derive(Debug)]
pub struct Comment {
    pub id: i32,
    pub article_id: u128,
    pub user_id: u128,
    pub body: String,
    pub created_at: i64,
    pub updated_at: i64,
}

impl View for Comment {
    type V = CommentRow;

    open spec fn view(&self) -> CommentRow {
        CommentRow {
            id: self.id,
            article_id: self.article_id,
            user_id: self.user_id,
            body: self.body@,
            created_at: self.created_at,
            updated_at: self.updated_at,
        }
    }
}

impl Clone for Comment {
    fn clone(&self) -> (r: Self)
        ensures
            r == *self,
    {
        Comment {
            id: self.id,
            article_id: self.article_id,
            user_id: self.user_id,
            body: self.body.clone(),
            created_at: self.created_at,
            updated_at: self.updated_at,
        }
    }
}

/// A comment that is about to be stored.
#[derive(Debug)]
pub struct NewComment {
    pub article_id: u128,
    pub user_id: u128,
    pub body: String,
}

/// The payload of a new comment.
#[derive(Debug)]
pub struct AddComment {
    pub body: String,
}

impl AddComment {
    /// The rules that the payload breaks.
    pub open spec fn violations(&self) -> Seq<FieldError> {
        nonempty_violations("body", self.body@)
    }

    pub fn validate(&self) -> (r: Result<(), ValidationErrors>)
        ensures
            r is Ok <==> self.violations().len() == 0,
            r matches Err(e) ==> e@ == self.violations(),
    {
        let mut errors = ValidationErrors::new();
        check_nonempty(&mut errors, "body", self.body.as_str());
        errors.into_result()
    }
}

/// The envelope of a new comment.
#[derive(Debug)]
pub struct AddCommentOuter {
    pub slug: String,
    pub comment: AddComment,
}

/// The request for the comments of an article.
#[derive(Debug)]
pub struct GetComments {
    pub slug: String,
}

/// The request to delete a comment.
#[derive(Debug)]
pub struct DeleteComment {
    pub slug: String,
    pub comment_id: i32,
}

/// The body of a comment response.
#[derive(Debug)]
pub struct CommentResponse {
    pub comment: CommentResponseInner,
}

/// A comment as one viewer sees it.
#[derive(Debug)]
pub struct CommentResponseInner {
    pub id: i32,
    pub created_at: CustomDateTime,
    pub updated_at: CustomDateTime,
    pub body: String,
    pub author: ProfileResponseInner,
}

impl View for CommentResponseInner {
    type V = CommentDoc;

    open spec fn view(&self) -> CommentDoc {
        CommentDoc {
            id: self.id,
            created_at: self.created_at.0,
            updated_at: self.updated_at.0,
            body: self.body@,
            author: self.author@,
        }
    }
}

impl View for CommentResponse {
    type V = CommentDoc;

    open spec fn view(&self) -> CommentDoc {
        self.comment@
    }
}

/// The body of a comment listing.
#[derive(Debug)]
pub struct CommentListResponse {
    pub comments: Vec<CommentResponseInner>,
}

impl View for CommentListResponse {
    type V = Seq<CommentDoc>;

    open spec fn view(&self) -> Seq<CommentDoc> {
        rows(self.comments@)
    }
}

/// The comment that a route is about.
#[derive(Debug)]
pub struct ArticleCommentPath {
    pub slug: String,
    pub comment_id: i32,
}

/// A comment joined with its author.
#[derive(Debug)]
pub struct CommentAndCommenter {
    pub comment: Comment,
    pub commenter: User,
}

} // verus!
