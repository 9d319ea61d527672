//! Articles: the stored rows, the payloads and the bodies of the article
//! routes.

use crate::model::{
    rows, text_of, ArticleDoc, ArticleRow, FavoriteRow, FollowerRow,
};
use crate::schemas::profile_schema::ProfileResponseInner;
use crate::schemas::users_schema::User;
use crate::validation::{
    check_nonempty, check_nonempty_list, check_username, nonempty_list_violations,
    nonempty_violations, username_violations, FieldError, ValidationErrors, MSG_USERNAME_LENGTH,
};
use std::fmt::Write;
use vstd::prelude::*;

verus! {

/// The form in which a moment is written out: year to milliseconds, with a
/// literal `Z` at the end.
pub const TIMESTAMP_FORMAT: &'static str = "%Y-%m-%dT%H:%M:%S.%3fZ";

/// What chrono writes for the moment `millis` milliseconds after the epoch
/// under the format `pattern`: `None` where chrono cannot hold the moment or
/// cannot apply the pattern.
pub uninterp spec fn formatted_moment(millis: i64, pattern: Seq<char>) -> Option<Seq<char>>;

/// `chrono::DateTime::from_timestamp_millis`, then `NaiveDateTime::format`
/// on the naive time of the result, written out.
#[verifier::external_body]
fn format_moment(millis: i64, pattern: &str) -> (r: Option<String>)
    ensures
        text_of(r) == formatted_moment(millis, pattern@),
{
    match chrono::DateTime::from_timestamp_millis(millis) {
        Some(moment) => {
            let mut out = String::new();
            match write!(out, "{}", moment.naive_utc().format(pattern)) {
                Ok(()) => Some(out),
                Err(_) => None,
            }
        },
        None => None,
    }
}

/// A moment without a time zone, in milliseconds since the epoch, that is
/// written out as `YYYY-MM-DDTHH:MM:SS.mmmZ`.
#[derive(Clone, Copy, Debug, PartialEq, Eq, Structural)]
pub struct CustomDateTime(pub i64);

impl CustomDateTime {
    /// The moment in text, or `None` for a moment outside the calendar.
    pub fn serialize(&self) -> (r: Option<String>)
        ensures
            text_of(r) == formatted_moment(self.0, TIMESTAMP_FORMAT@),
    {
        format_moment(self.0, TIMESTAMP_FORMAT)
    }
}

/// A stored article.
#[derive(Debug)]
pub struct Article {
    pub id: u128,
    pub author_id: u128,
    pub slug: String,
    pub title: String,
    pub description: String,
    pub body: String,
    pub created_at: i64,
    pub updated_at: i64,
}

impl View for Article {
    type V = ArticleRow;

    open spec fn view(&self) -> ArticleRow {
        ArticleRow {
            id: self.id,
            author_id: self.author_id,
            slug: self.slug@,
            title: self.title@,
            description: self.description@,
            body: self.body@,
            created_at: self.created_at,
            updated_at: self.updated_at,
        }
    }
}

impl Clone for Article {
    fn clone(&self) -> (r: Self)
        ensures
            r == *self,
    {
        Article {
            id: self.id,
            author_id: self.author_id,
            slug: self.slug.clone(),
            title: self.title.clone(),
            description: self.description.clone(),
            body: self.body.clone(),
            created_at: self.created_at,
            updated_at: self.updated_at,
        }
    }
}

/// The filters and the page of an article listing.
#[derive(Debug)]
pub struct ArticlesParams {
    pub tag: Option<String>,
    pub author: Option<String>,
    pub favorited: Option<String>,
    pub limit: Option<usize>,
    pub offset: Option<usize>,
}

/// The body of an article response.
#[derive(Debug)]
pub struct ArticleResponse {
    pub article: ArticleResponseInner,
}

/// An article as one viewer sees it.
#[derive(Debug)]
pub struct ArticleResponseInner {
    pub slug: String,
    pub title: String,
    pub description: String,
    pub body: String,
    pub tag_list: Vec<String>,
    pub created_at: CustomDateTime,
    pub updated_at: CustomDateTime,
    pub favorited: bool,
    pub favorites_count: usize,
    pub author: ProfileResponseInner,
}

impl View for ArticleResponseInner {
    type V = ArticleDoc;

    open spec fn view(&self) -> ArticleDoc {
        ArticleDoc {
            slug: self.slug@,
            title: self.title@,
            description: self.description@,
            body: self.body@,
            tag_list: rows(self.tag_list@),
            created_at: self.created_at.0,
            updated_at: self.updated_at.0,
            favorited: self.favorited,
            favorites_count: self.favorites_count as nat,
            author: self.author@,
        }
    }
}

impl View for ArticleResponse {
    type V = ArticleDoc;

    open spec fn view(&self) -> ArticleDoc {
        self.article@
    }
}

/// The body of an article listing.
#[derive(Debug)]
pub struct ArticleListResponse {
    pub articles: Vec<ArticleResponseInner>,
    pub articles_count: usize,
}

impl View for ArticleListResponse {
    type V = Seq<ArticleDoc>;

    open spec fn view(&self) -> Seq<ArticleDoc> {
        rows(self.articles@)
    }
}

/// An article joined with its author.
#[derive(Debug)]
pub struct ArticleAndAuthor {
    pub article: Article,
    pub author: User,
}

/// The acting user of an article route, by username.
#[derive(Debug)]
pub struct UserForArticle {
    pub username: String,
}

impl UserForArticle {
    /// The rules that the payload breaks.
    pub open spec fn violations(&self) -> Seq<FieldError> {
        username_violations(self.username@, 3, MSG_USERNAME_LENGTH)
    }

    pub fn validate(&self) -> (r: Result<(), ValidationErrors>)
        ensures
            r is Ok <==> self.violations().len() == 0,
            r matches Err(e) ==> e@ == self.violations(),
    {
        let mut errors = ValidationErrors::new();
        check_username(&mut errors, self.username.as_str(), 3, MSG_USERNAME_LENGTH);
        errors.into_result()
    }
}

/// An article that is about to be stored.
#[derive(Debug)]
pub struct NewArticle {
    pub id: u128,
    pub author_id: u128,
    pub slug: String,
    pub title: String,
    pub description: String,
    pub body: String,
}

/// The payload of an article creation.
#[derive(Debug)]
pub struct CreateArticle {
    pub title: String,
    pub description: String,
    pub body: String,
    pub tag_list: Vec<String>,
}

impl CreateArticle {
    /// The rules that the payload breaks.
    pub open spec fn violations(&self) -> Seq<FieldError> {
        nonempty_violations("title", self.title@) + nonempty_violations(
            "description",
            self.description@,
        ) + nonempty_violations("body", self.body@) + nonempty_list_violations(
            "tag_list",
            self.tag_list@.len(),
        )
    }

    pub fn validate(&self) -> (r: Result<(), ValidationErrors>)
        ensures
            r is Ok <==> self.violations().len() == 0,
            r matches Err(e) ==> e@ == self.violations(),
    {
        let mut errors = ValidationErrors::new();
        check_nonempty(&mut errors, "title", self.title.as_str());
        check_nonempty(&mut errors, "description", self.description.as_str());
        check_nonempty(&mut errors, "body", self.body.as_str());
        check_nonempty_list(&mut errors, "tag_list", self.tag_list.len());
        errors.into_result()
    }
}

/// The envelope of an article creation.
#[derive(Debug)]
pub struct CreateArticleOuter {
    pub article: CreateArticle,
}

/// The page of a feed.
#[derive(Debug)]
pub struct FeedParams {
    pub limit: Option<usize>,
    pub offset: Option<usize>,
}

/// A stored follow edge: `follower_id` follows `user_id`.
#[derive(Clone, Copy, Debug)]
pub struct Follower {
    pub user_id: u128,
    pub follower_id: u128,
    pub created_at: i64,
    pub updated_at: i64,
}

impl View for Follower {
    type V = FollowerRow;

    open spec fn view(&self) -> FollowerRow {
        FollowerRow {
            user_id: self.user_id,
            follower_id: self.follower_id,
            created_at: self.created_at,
            updated_at: self.updated_at,
        }
    }
}

/// The article that a route is about, by slug.
#[derive(Debug)]
pub struct ArticlePath {
    pub slug: String,
}

/// The request for one article.
#[derive(Debug)]
pub struct GetArticle {
    pub slug: String,
}

/// The payload of an article update. An absent field is neither checked nor
/// changed.
#[derive(Debug)]
pub struct UpdateArticle {
    pub title: Option<String>,
    pub description: Option<String>,
    pub body: Option<String>,
    pub tag_list: Option<Vec<String>>,
}

impl UpdateArticle {
    /// The rules that the payload breaks.
    pub open spec fn violations(&self) -> Seq<FieldError> {
        (match self.title {
            Some(s) => nonempty_violations("title", s@),
            None => Seq::empty(),
        }) + (match self.description {
            Some(s) => nonempty_violations("description", s@),
            None => Seq::empty(),
        }) + (match self.body {
            Some(s) => nonempty_violations("body", s@),
            None => Seq::empty(),
        }) + (match self.tag_list {
            Some(v) => nonempty_list_violations("tag_list", v@.len()),
            None => Seq::empty(),
        })
    }

    pub fn validate(&self) -> (r: Result<(), ValidationErrors>)
        ensures
            r is Ok <==> self.violations().len() == 0,
            r matches Err(e) ==> e@ == self.violations(),
    {
        let mut errors = ValidationErrors::new();
        if let Some(s) = &self.title {
            check_nonempty(&mut errors, "title", s.as_str());
        }
        if let Some(s) = &self.description {
            check_nonempty(&mut errors, "description", s.as_str());
        }
        if let Some(s) = &self.body {
            check_nonempty(&mut errors, "body", s.as_str());
        }
        if let Some(v) = &self.tag_list {
            check_nonempty_list(&mut errors, "tag_list", v.len());
        }
        errors.into_result()
    }
}

/// The envelope of an article update.
#[derive(Debug)]
pub struct UpdateArticleOuter {
    pub slug: String,
    pub article: UpdateArticle,
}

/// The columns that an article update writes. An absent column stays as it
/// is.
#[derive(Debug)]
pub struct ArticleChange {
    pub slug: Option<String>,
    pub title: Option<String>,
    pub description: Option<String>,
    pub body: Option<String>,
}

/// The request to favorite an article.
#[derive(Debug)]
pub struct FavoriteArticle {
    pub slug: String,
}

/// The request to take a favorite back.
#[derive(Debug)]
pub struct UnfavoriteArticle {
    pub slug: String,
}

/// A stored favorite edge: `user_id` has favorited `article_id`.
#[derive(Clone, Copy, Debug)]
pub struct NewFavoriteArticle {
    pub user_id: u128,
    pub article_id: u128,
}

impl View for NewFavoriteArticle {
    type V = FavoriteRow;

    open spec fn view(&self) -> FavoriteRow {
        FavoriteRow { user_id: self.user_id, article_id: self.article_id }
    }
}

} // verus!
