//! The tracker for Trakt: device login, scrobbling, history, ratings and watchlist.

pub mod calls;
pub mod errors;
pub mod preset;
pub mod pull;
pub mod targets;
pub mod tokens;
