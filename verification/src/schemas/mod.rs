//! Rows, request payloads and response bodies.

pub mod article_comment_schema;
pub mod article_tag_schema;
pub mod articles_schema;
pub mod profile_schema;
pub mod users_schema;
