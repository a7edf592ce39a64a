//! Version 1 of the Academic Graph API.

pub mod definition;
pub mod endpoint;
pub mod error;
pub mod pagination;
pub mod parameter;
pub mod query_params;
pub mod static_url;
pub mod utils;
