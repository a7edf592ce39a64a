//! The shapes of what the service returns.

pub mod author;
pub mod batch;
pub mod citation;
pub mod paper;
pub mod reference;
pub mod tldr;
