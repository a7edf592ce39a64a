//! The endpoints of the service and the iteration over paged ones.

pub mod author;
pub mod iter;
pub mod model;
pub mod paper;

use vstd::prelude::*;
use crate::endpoint::{Endpoint, Method};
use crate::urlencoded::{query_text, with_pairs, QueryParams, UrlEncodedQuery};
use crate::v1::error::ResponseError;
use crate::v1::pagination::{Page, Paged};

verus! {

/// An endpoint of the service: its URL and the parameters of a request.
#[derive(Debug)]
pub struct BaseEndpoint<P> {
    query_params: P,
    endpoint: String,
}

impl<P> BaseEndpoint<P> {
    /// The parameters of a request.
    pub closed spec fn params(&self) -> P {
        self.query_params
    }

    /// The URL of the endpoint.
    pub closed spec fn url(&self) -> Seq<char> {
        self.endpoint@
    }

    /// The endpoint at the URL `endpoint`, asked with `query_params`.
    pub fn new(query_params: P, endpoint: String) -> (res: BaseEndpoint<P>)
        ensures
            res.params() == query_params,
            res.url() == endpoint@,
    {
        BaseEndpoint { query_params, endpoint }
    }
}

impl<P: QueryParams> Endpoint for BaseEndpoint<P> {
    type Error = ResponseError;

    /// Every request to the service is a `GET`.
    fn method(&self) -> (method: Method)
        ensures
            method == Method::Get,
    {
        Method::Get
    }

    fn endpoint(&self) -> (url: &str)
        ensures
            url@ == self.url(),
    {
        self.endpoint.as_str()
    }

    fn query_params(&self) -> (res: Result<UrlEncodedQuery, serde_urlencoded::ser::Error>)
        ensures
            res is Ok,
            query_text(res->Ok_0) == with_pairs(Seq::<char>::empty(), self.params().pairs()),
    {
        UrlEncodedQuery::with(&self.query_params)
    }
}

impl<P: Paged> Paged for BaseEndpoint<P> {
    closed spec fn page(&self) -> Page {
        self.query_params.page()
    }

    closed spec fn beside_page(&self) -> Self {
        BaseEndpoint { query_params: self.query_params.beside_page(), endpoint: self.endpoint }
    }

    fn get_page(&self) -> (page: &Page) {
        self.query_params.get_page()
    }

    fn get_page_mut(&mut self) -> (page: &mut Page) {
        self.query_params.get_page_mut()
    }
}

impl<P: Paged> BaseEndpoint<P> {
    /// The page of the endpoint is the page of its parameters.
    pub proof fn lemma_page(&self)
        ensures
            self.page() == self.params().page(),
    {
    }
}

} // verus!
