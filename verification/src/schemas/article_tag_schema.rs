//! Tags: the stored row and the body of the tag listing.

use crate::model::TagRow;
use vstd::prelude::*;

verus! {

/// The request for the tag listing.
#[derive(Debug)]
pub struct GetTags {}

/// The body of the tag listing.
#[derive(Debug)]
pub struct TagsResponse {
    pub tags: Vec<String>,
}

/// A stored tag of an article.
#[derive(Debug)]
pub struct ArticleTag {
    pub article_id: u128,
    pub tag_name: String,
    pub created_at: i64,
    pub updated_at: i64,
}

impl View for ArticleTag {
    type V = TagRow;

    open spec fn view(&self) -> TagRow {
        TagRow {
            article_id: self.article_id,
            tag_name: self.tag_name@,
            created_at: self.created_at,
            updated_at: self.updated_at,
        }
    }
}

impl Clone for ArticleTag {
    fn clone(&self) -> (r: Self)
        ensures
            r == *self,
    {
        ArticleTag {
            article_id: self.article_id,
            tag_name: self.tag_name.clone(),
            created_at: self.created_at,
            updated_at: self.updated_at,
        }
    }
}

/// A tag that is about to be stored.
#[derive(Debug)]
pub struct NewArticleTag {
    pub article_id: u128,
    pub tag_name: String,
}

} // verus!
