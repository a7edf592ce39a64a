//! The endpoints for authors.

pub mod papers;
pub mod search;

use vstd::prelude::*;
use crate::client::{BaseClient, Client};
use crate::error::ApiError;
use crate::query::Query;
use crate::v1::definition::author::AuthorWithPapers;
use crate::v1::endpoint::BaseEndpoint;
use crate::v1::error::ResponseError;
use crate::v1::query_params::AuthorParams;
use crate::v1::static_url::author_endpoint;

verus! {

/// The endpoint that returns one author.
pub struct GetAuthor(BaseEndpoint<AuthorParams>);

impl GetAuthor {
    /// The endpoint and the parameters of a request.
    pub closed spec fn endpoint(&self) -> BaseEndpoint<AuthorParams> {
        self.0
    }

    /// The endpoint for the author with the id `author_id`, asked with
    /// `query_params`.
    pub fn new(query_params: AuthorParams, author_id: String) -> (res: GetAuthor)
        ensures
            res.endpoint().params() == query_params,
            res.endpoint().url() == crate::v1::static_url::base_url() + "author/"@ + author_id@,
    {
        let endpoint = author_endpoint(author_id.as_str());
        GetAuthor(BaseEndpoint::new(query_params, endpoint))
    }

    /// The endpoint and the parameters of a request.
    pub fn as_endpoint(&self) -> (endpoint: &BaseEndpoint<AuthorParams>)
        ensures
            *endpoint == self.endpoint(),
    {
        &self.0
    }

    /// The endpoint and the parameters of a request, for an iteration of
    /// one's own.
    pub fn into_endpoint(self) -> (endpoint: BaseEndpoint<AuthorParams>)
        ensures
            endpoint == self.endpoint(),
    {
        self.0
    }

    /// Asks the service once, through `client`, and returns what it
    /// answers: the author, or the error of the exchange.
    ///
    /// The exchange is the `Query` of the endpoint with its parameters as
    /// they are, made once with this client; its outcome is returned as it
    /// is.
    pub fn query<T, C>(&self, client: &C) -> (res: Result<
        T,
        ApiError<ResponseError, <C as BaseClient>::Error>,
    >) where
        T: From<AuthorWithPapers>,
        C: Client,
        BaseEndpoint<AuthorParams>: Query<T, BaseEndpoint<AuthorParams>, C>,

        ensures
            call_ensures(
                <BaseEndpoint<AuthorParams> as Query<T, BaseEndpoint<AuthorParams>, C>>::query,
                (&self.endpoint(), client),
                res,
            ),
    {
        self.0.query(client)
    }
}

} // verus!
