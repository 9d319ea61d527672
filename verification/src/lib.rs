//! A verified core for a conversational blogging backend: users, profiles,
//! articles, tags, comments, follows and favorites over a relational store.
//!
//! The crate is laid out in layers:
//!
//! - [`model`] is the mathematics: tables as sequences of rows, the
//!   constraints of the store, and what each write does to the tables.
//!   [`invariants`] and [`lookups`] prove that the writes keep the
//!   constraints and say what the lookups find afterwards.
//! - [`store`] holds the tables in memory and journals every write, so that
//!   the owner of the real database can replay them there.
//! - [`schemas`] holds the rows, the payloads with their field rules, and
//!   the bodies of the replies; [`validation`] holds the rules themselves.
//! - [`routes`] holds one function per route, from the store and a payload
//!   to a reply or an [`errors::Error`].
//! - [`laws`] states what holds of the routes taken together.
//!
//! No function of this crate panics, and every public function says in its
//! contract what it returns and what it changes.

pub mod errors;
pub mod handlers;
pub mod invariants;
pub mod laws;
pub mod lookups;
pub mod model;
pub mod models;
pub mod routes;
pub mod schemas;
pub mod settings;
pub mod slug;
pub mod store;
pub mod utils;
pub mod validation;
