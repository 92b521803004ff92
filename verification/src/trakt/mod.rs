//! The API of Trakt: the titles it speaks of, its operations, and its device login.

pub mod auth;
pub mod endpoints;
pub mod items;
pub mod replies;

