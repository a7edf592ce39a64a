//! One exchange with the service.

use vstd::prelude::*;
use crate::client::{BaseClient, Client};
use crate::endpoint::Endpoint;
use crate::error::ApiError;

verus! {

/// A request that a client can carry to the service: one exchange, no
/// retry. Nothing is promised of the outcome, which depends on the service.
pub trait Query<T, E, C> where E: Endpoint, C: Client {
    /// Sends the request through `client` and decodes the response.
    fn query(&self, client: &C) -> Result<
        T,
        ApiError<<E as Endpoint>::Error, <C as BaseClient>::Error>,
    >;
}

} // verus!
