//! The search for authors.

use vstd::prelude::*;
use crate::client::{BaseClient, Client};
use crate::error::ApiError;
use crate::query::Query;
use crate::v1::definition::batch::SearchBatch;
use crate::v1::definition::author::AuthorWithPapers;
use crate::v1::endpoint::iter::{remainder, IterView, SearchBatchEndpointIter};
use crate::v1::endpoint::BaseEndpoint;
use crate::v1::error::ResponseError;
use crate::v1::pagination::{Paged, Results};
use crate::v1::query_params::AuthorSearchParams;
use crate::v1::static_url::author_search_endpoint;

verus! {

/// The endpoint that returns the authors that a search finds.
pub struct GetAuthorSearch(BaseEndpoint<AuthorSearchParams>);

/// An iteration over the authors that a search finds.
pub struct AuthorSearchIter<'a, T, C>(SearchBatchEndpointIter<'a, T, BaseEndpoint<AuthorSearchParams>, C>);

impl GetAuthorSearch {
    /// The endpoint and the parameters of a request.
    pub closed spec fn endpoint(&self) -> BaseEndpoint<AuthorSearchParams> {
        self.0
    }

    /// The endpoint for the search, asked with `query_params`.
    pub fn new(query_params: AuthorSearchParams) -> (res: GetAuthorSearch)
        ensures
            res.endpoint().params() == query_params,
            res.endpoint().url() == crate::v1::static_url::base_url() + "author/search"@,
    {
        let endpoint = author_search_endpoint();
        GetAuthorSearch(BaseEndpoint::new(query_params, endpoint))
    }

    /// An iteration over the results from the page of the parameters on,
    /// `results` of them at most, asked for through `client`. Nothing is
    /// asked for before the first item is.
    pub fn paged<T, C>(self, results: Results, client: &C) -> (iter: AuthorSearchIter<'_, T, C>)
        ensures
            iter@ == IterView::<T>::start(
                self.endpoint().params().page().offset(),
                self.endpoint().params().page().limit(),
                results,
                true,
            ),
            iter.request() == self.endpoint().beside_page(),
            iter.spec_client() == client,
    {
        proof {
            self.0.lemma_page();
        }
        AuthorSearchIter::new(self.0, results, client)
    }

    /// The endpoint and the parameters of a request.
    pub fn as_endpoint(&self) -> (endpoint: &BaseEndpoint<AuthorSearchParams>)
        ensures
            *endpoint == self.endpoint(),
    {
        &self.0
    }

    /// The endpoint and the parameters of a request, for an iteration of
    /// one's own.
    pub fn into_endpoint(self) -> (endpoint: BaseEndpoint<AuthorSearchParams>)
        ensures
            endpoint == self.endpoint(),
    {
        self.0
    }

    /// Asks the service once, through `client`, and returns what it
    /// answers: the page of the parameters, or the error of the exchange.
    ///
    /// The exchange is the `Query` of the endpoint with its parameters as
    /// they are, made once with this client; its outcome is returned as it
    /// is.
    pub fn query<T, C>(&self, client: &C) -> (res: Result<
        T,
        ApiError<ResponseError, <C as BaseClient>::Error>,
    >) where
        T: From<AuthorWithPapers>,
        C: Client,
        BaseEndpoint<AuthorSearchParams>: Query<T, BaseEndpoint<AuthorSearchParams>, C>,

        ensures
            call_ensures(
                <BaseEndpoint<AuthorSearchParams> as Query<T, BaseEndpoint<AuthorSearchParams>, C>>::query,
                (&self.endpoint(), client),
                res,
            ),
    {
        self.0.query(client)
    }
}

impl<'a, T, C> View for AuthorSearchIter<'a, T, C> {
    type V = IterView<T>;

    closed spec fn view(&self) -> IterView<T> {
        self.0@
    }
}

impl<'a, T, C> AuthorSearchIter<'a, T, C> {
    /// What the endpoint holds beside its page. No step of the iteration
    /// changes it.
    pub closed spec fn request(&self) -> BaseEndpoint<AuthorSearchParams> {
        self.0.request()
    }

    /// The client that the requests go through.
    pub closed spec fn spec_client(&self) -> &'a C {
        self.0.spec_client()
    }

    /// An iteration over the results of `endpoint` from its page on.
    pub fn new(endpoint: BaseEndpoint<AuthorSearchParams>, results: Results, client: &'a C) -> (iter: AuthorSearchIter<
        'a,
        T,
        C,
    >)
        ensures
            iter@ == IterView::<T>::start(
                endpoint.page().offset(),
                endpoint.page().limit(),
                results,
                true,
            ),
            iter.request() == endpoint.beside_page(),
            iter.spec_client() == client,
    {
        AuthorSearchIter(SearchBatchEndpointIter::new(endpoint, results, client))
    }

    /// The number of results of the whole search, as the last response
    /// reports it: 0 before the first.
    pub fn total(&self) -> (total: u64)
        ensures
            self@.total == Some(total),
    {
        self.0.total()
    }

    /// How many results are still to be received, as both bounds of a
    /// size hint.
    pub fn size_hint(&self) -> (hint: (usize, Option<usize>))
        ensures
            self@.total matches Some(total) && hint.0 == remainder(
                total,
                self@.count,
            ),
            hint.1 == Some(hint.0),
    {
        self.0.size_hint()
    }
}

impl<'a, T, C> AuthorSearchIter<'a, T, C> where
    T: From<AuthorWithPapers>,
    C: Client,
    BaseEndpoint<AuthorSearchParams>: Query<SearchBatch<T>, BaseEndpoint<AuthorSearchParams>, C>,
 {
    /// The next result, or the error of the request that was made for it;
    /// `None` where the iteration has ended. An error ends nothing: the
    /// next call makes the request again.
    pub fn next(&mut self) -> (item: Option<
        Result<T, ApiError<ResponseError, <C as BaseClient>::Error>>,
    >)
        ensures
            old(self)@.next_outcome(final(self)@, item),
            final(self).request() == old(self).request(),
            final(self).spec_client() == old(self).spec_client(),
    {
        self.0.next()
    }
}

} // verus!
