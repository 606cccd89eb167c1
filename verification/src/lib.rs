//! A client library for a social network's REST API: posting, favoriting
//! and repeating statuses, looking them up, searching, and uploading media.
//!
//! The library makes the requests and reads the answers; sending a request
//! is left to the caller. A [`TwitterBot`] is given its four secrets and
//! then makes, for each operation, a [`request::SignedRequest`]: a method,
//! an address with the parameters in its query, and an OAuth header. The
//! answer comes back as a status and a body in [`json::Json`], from which
//! the functions of [`response`] read a [`Tweet`], a list of them, or the
//! identifier of an upload, or else the reason why there is none.

pub mod bot;
pub mod error;
pub mod json;
pub mod operations;
pub mod query;
pub mod request;
pub mod response;
pub mod text;
pub mod tweet_structure;

pub use bot::TwitterBot;
pub use tweet_structure::{Tweet, User};
