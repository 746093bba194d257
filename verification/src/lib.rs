//! Request logic of the reporting backend: parsing and validation of what the
//! HTTP handlers receive, the decisions they take, and the values they write.
//! The HTTP, database, cache and socket plumbing lives in the application crate.

pub mod handlers;
pub mod models;
pub mod routes;
pub mod status;
pub mod text;
pub mod utils;
