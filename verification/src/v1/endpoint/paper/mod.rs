//! The endpoints for papers.

pub mod authors;
pub mod citations;
pub mod references;
pub mod search;

use vstd::prelude::*;
use crate::client::{BaseClient, Client};
use crate::error::ApiError;
use crate::query::Query;
use crate::v1::endpoint::BaseEndpoint;
use crate::v1::error::ResponseError;
use crate::v1::query_params::PaperParams;
use crate::v1::static_url::paper_endpoint;

verus! {

/// The endpoint that returns one paper.
pub struct GetPaper(BaseEndpoint<PaperParams>);

impl GetPaper {
    /// The endpoint and the parameters of a request.
    pub closed spec fn endpoint(&self) -> BaseEndpoint<PaperParams> {
        self.0
    }

    /// The endpoint for the paper with the id `paper_id`, asked with
    /// `query_params`.
    pub fn new(query_params: PaperParams, paper_id: String) -> (res: GetPaper)
        ensures
            res.endpoint().params() == query_params,
            res.endpoint().url() == crate::v1::static_url::base_url() + "paper/"@ + paper_id@,
    {
        let endpoint = paper_endpoint(paper_id.as_str());
        GetPaper(BaseEndpoint::new(query_params, endpoint))
    }

    /// The endpoint and the parameters of a request.
    pub fn as_endpoint(&self) -> (endpoint: &BaseEndpoint<PaperParams>)
        ensures
            *endpoint == self.endpoint(),
    {
        &self.0
    }

    /// The endpoint and the parameters of a request, for an iteration of
    /// one's own.
    pub fn into_endpoint(self) -> (endpoint: BaseEndpoint<PaperParams>)
        ensures
            endpoint == self.endpoint(),
    {
        self.0
    }

    /// Asks the service once, through `client`, and returns what it
    /// answers: the paper, or the error of the exchange.
    ///
    /// The exchange is the `Query` of the endpoint with its parameters as
    /// they are, made once with this client; its outcome is returned as it
    /// is.
    pub fn query<T, C>(&self, client: &C) -> (res: Result<
        T,
        ApiError<ResponseError, <C as BaseClient>::Error>,
    >) where
        C: Client,
        BaseEndpoint<PaperParams>: Query<T, BaseEndpoint<PaperParams>, C>,

        ensures
            call_ensures(
                <BaseEndpoint<PaperParams> as Query<T, BaseEndpoint<PaperParams>, C>>::query,
                (&self.endpoint(), client),
                res,
            ),
    {
        self.0.query(client)
    }
}

} // verus!
