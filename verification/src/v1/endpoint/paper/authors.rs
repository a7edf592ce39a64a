//! The authors of a paper.

use vstd::prelude::*;
use crate::client::{BaseClient, Client};
use crate::error::ApiError;
use crate::query::Query;
use crate::v1::definition::batch::Batch;
use crate::v1::definition::author::AuthorWithPapers;
use crate::v1::endpoint::iter::{BatchEndpointIter, IterView};
use crate::v1::endpoint::BaseEndpoint;
use crate::v1::error::ResponseError;
use crate::v1::pagination::{Paged, Results};
use crate::v1::query_params::PaperAuthorsParams;
use crate::v1::static_url::paper_authors_endpoint;

verus! {

/// The endpoint that returns the authors of a paper.
pub struct GetPaperAuthors(BaseEndpoint<PaperAuthorsParams>);

/// An iteration over the authors of a paper.
pub struct PaperAuthorsIter<'a, T, C>(BatchEndpointIter<'a, T, BaseEndpoint<PaperAuthorsParams>, C>);

impl GetPaperAuthors {
    /// The endpoint and the parameters of a request.
    pub closed spec fn endpoint(&self) -> BaseEndpoint<PaperAuthorsParams> {
        self.0
    }

    /// The endpoint for the authors of the paper with the id `paper_id`,
    /// asked with `query_params`.
    pub fn new(query_params: PaperAuthorsParams, paper_id: String) -> (res: GetPaperAuthors)
        ensures
            res.endpoint().params() == query_params,
            res.endpoint().url() == crate::v1::static_url::base_url() + "paper/"@ + paper_id@ + "/authors"@,
    {
        let endpoint = paper_authors_endpoint(paper_id.as_str());
        GetPaperAuthors(BaseEndpoint::new(query_params, endpoint))
    }

    /// An iteration over the results from the page of the parameters on,
    /// `results` of them at most, asked for through `client`. Nothing is
    /// asked for before the first item is.
    pub fn paged<T, C>(self, results: Results, client: &C) -> (iter: PaperAuthorsIter<'_, T, C>)
        ensures
            iter@ == IterView::<T>::start(
                self.endpoint().params().page().offset(),
                self.endpoint().params().page().limit(),
                results,
                false,
            ),
            iter.request() == self.endpoint().beside_page(),
            iter.spec_client() == client,
    {
        proof {
            self.0.lemma_page();
        }
        PaperAuthorsIter::new(self.0, results, client)
    }

    /// The endpoint and the parameters of a request.
    pub fn as_endpoint(&self) -> (endpoint: &BaseEndpoint<PaperAuthorsParams>)
        ensures
            *endpoint == self.endpoint(),
    {
        &self.0
    }

    /// The endpoint and the parameters of a request, for an iteration of
    /// one's own.
    pub fn into_endpoint(self) -> (endpoint: BaseEndpoint<PaperAuthorsParams>)
        ensures
            endpoint == self.endpoint(),
    {
        self.0
    }

    /// Asks the service once, through `client`, and returns what it
    /// answers: the page of the parameters, or the error of the exchange.
    ///
    /// The exchange is the `Query` of the endpoint with its parameters as
    /// they are, made once with this client; its outcome is returned as it
    /// is.
    pub fn query<T, C>(&self, client: &C) -> (res: Result<
        T,
        ApiError<ResponseError, <C as BaseClient>::Error>,
    >) where
        T: From<AuthorWithPapers>,
        C: Client,
        BaseEndpoint<PaperAuthorsParams>: Query<T, BaseEndpoint<PaperAuthorsParams>, C>,

        ensures
            call_ensures(
                <BaseEndpoint<PaperAuthorsParams> as Query<T, BaseEndpoint<PaperAuthorsParams>, C>>::query,
                (&self.endpoint(), client),
                res,
            ),
    {
        self.0.query(client)
    }
}

impl<'a, T, C> View for PaperAuthorsIter<'a, T, C> {
    type V = IterView<T>;

    closed spec fn view(&self) -> IterView<T> {
        self.0@
    }
}

impl<'a, T, C> PaperAuthorsIter<'a, T, C> {
    /// What the endpoint holds beside its page. No step of the iteration
    /// changes it.
    pub closed spec fn request(&self) -> BaseEndpoint<PaperAuthorsParams> {
        self.0.request()
    }

    /// The client that the requests go through.
    pub closed spec fn spec_client(&self) -> &'a C {
        self.0.spec_client()
    }

    /// An iteration over the results of `endpoint` from its page on.
    pub fn new(endpoint: BaseEndpoint<PaperAuthorsParams>, results: Results, client: &'a C) -> (iter: PaperAuthorsIter<
        'a,
        T,
        C,
    >)
        ensures
            iter@ == IterView::<T>::start(
                endpoint.page().offset(),
                endpoint.page().limit(),
                results,
                false,
            ),
            iter.request() == endpoint.beside_page(),
            iter.spec_client() == client,
    {
        PaperAuthorsIter(BatchEndpointIter::new(endpoint, results, client))
    }
}

impl<'a, T, C> PaperAuthorsIter<'a, T, C> where
    T: From<AuthorWithPapers>,
    C: Client,
    BaseEndpoint<PaperAuthorsParams>: Query<Batch<T>, BaseEndpoint<PaperAuthorsParams>, C>,
 {
    /// The next result, or the error of the request that was made for it;
    /// `None` where the iteration has ended. An error ends nothing: the
    /// next call makes the request again.
    pub fn next(&mut self) -> (item: Option<
        Result<T, ApiError<ResponseError, <C as BaseClient>::Error>>,
    >)
        ensures
            old(self)@.next_outcome(final(self)@, item),
            final(self).request() == old(self).request(),
            final(self).spec_client() == old(self).spec_client(),
    {
        self.0.next()
    }
}

} // verus!
