//! A typed client for the Semantic Scholar Academic Graph API.
//!
//! The crate binds endpoint URLs, query parameters and response shapes, and
//! drives paged endpoints through a small pagination engine whose bounds
//! arithmetic and state transitions are proved.

pub mod client;
pub mod endpoint;
pub mod error;
pub mod query;
pub mod serialize;
pub mod text;
pub mod urlencoded;
pub mod v1;
