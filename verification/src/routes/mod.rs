//! The routes of the backend, each as a function from the store and a
//! payload to a reply.

pub mod articles;
pub mod comments;
pub mod ping;
pub mod profile;
pub mod tags;
pub mod users;
