use std::cell::{Cell, RefCell};

use scholars::client::{BaseClient, Client};
use scholars::error::ApiError;
use scholars::query::Query;
use scholars::v1::definition::batch::{Batch, Batched, SearchBatch};
use scholars::v1::definition::citation::Citation;
use scholars::v1::endpoint::iter::{
    reverse, size_hint, Advance, BatchEndpointIter, InnerEndpointIter, SearchBatchEndpointIter,
};
use scholars::v1::endpoint::paper::citations::GetPaperCitations;
use scholars::v1::endpoint::paper::search::GetPaperSearch;
use scholars::v1::endpoint::BaseEndpoint;
use scholars::v1::error::ResponseError;
use scholars::v1::pagination::{Page, Paged, Results};
use scholars::v1::query_params::{PaperCitationsParams, PaperSearchParams};

/// A service that holds the numbers `0..corpus` and serves them page by page.
struct Service {
    corpus: u64,
    failing: Cell<bool>,
    requests: RefCell<Vec<(u64, u64)>>,
}

impl Service {
    fn with(corpus: u64) -> Service {
        Service { corpus, failing: Cell::new(false), requests: RefCell::new(vec![]) }
    }

    fn serve(&self, offset: u64, limit: u64) -> Result<Batch<u64>, ApiError<ResponseError, String>> {
        self.requests.borrow_mut().push((offset, limit));
        if self.failing.get() {
            return Err(ApiError::from_client(format!("no answer for {offset}")));
        }
        let end = offset.saturating_add(limit).min(self.corpus);
        let data: Vec<u64> = (offset..end).collect();
        let next = if offset + limit < self.corpus { Some(offset + limit) } else { None };
        Ok(Batch::new(offset, next, data))
    }

    fn requests(&self) -> Vec<(u64, u64)> {
        self.requests.borrow().clone()
    }
}

impl BaseClient for Service {
    type Error = String;

    fn endpoint(&self, endpoint: &str) -> Result<url::Url, url::ParseError> {
        url::Url::parse(endpoint)
    }
}

impl Client for Service {
    fn send(
        &self,
        _request: http::request::Builder,
        _body: Vec<u8>,
    ) -> Result<http::Response<bytes::Bytes>, String> {
        panic!("the service of these tests is asked directly")
    }
}

type Citations = BaseEndpoint<PaperCitationsParams>;
type Search = BaseEndpoint<PaperSearchParams>;

impl Query<Batch<u64>, Citations, Service> for Citations {
    fn query(&self, client: &Service) -> Result<Batch<u64>, ApiError<ResponseError, String>> {
        client.serve(self.get_offset(), self.get_limit())
    }
}

impl Query<Batch<Citation>, Citations, Service> for Citations {
    fn query(&self, client: &Service) -> Result<Batch<Citation>, ApiError<ResponseError, String>> {
        let batch = client.serve(self.get_offset(), self.get_limit())?;
        let data = batch.data.iter().map(|_| Citation::default()).collect();
        Ok(Batch::new(batch.offset, batch.next, data))
    }
}

impl Query<SearchBatch<u64>, Search, Service> for Search {
    fn query(&self, client: &Service) -> Result<SearchBatch<u64>, ApiError<ResponseError, String>> {
        let batch = client.serve(self.get_offset(), self.get_limit())?;
        Ok(SearchBatch::new(batch, client.corpus))
    }
}

fn citations(offset: u64, limit: u64) -> Citations {
    let page = Page::new(offset, limit).expect("a valid page");
    BaseEndpoint::new(
        PaperCitationsParams::new(None, page),
        "https://example.org/citations".to_string(),
    )
}

fn search(offset: u64, limit: u64) -> Search {
    let page = Page::new(offset, limit).expect("a valid page");
    BaseEndpoint::new(
        PaperSearchParams::new("covid".to_string(), None, page),
        "https://example.org/search".to_string(),
    )
}

fn numbers(
    endpoint: Citations,
    results: Results,
    service: &Service,
) -> BatchEndpointIter<'_, u64, Citations, Service> {
    BatchEndpointIter::new(endpoint, results, service)
}

fn found(
    endpoint: Search,
    results: Results,
    service: &Service,
) -> SearchBatchEndpointIter<'_, u64, Search, Service> {
    SearchBatchEndpointIter::new(endpoint, results, service)
}

fn drain(iter: &mut BatchEndpointIter<'_, u64, Citations, Service>) -> Vec<u64> {
    let mut items = vec![];
    while let Some(item) = iter.next() {
        items.push(item.expect("the service answers"));
    }
    items
}

#[test]
fn requested_limit_shrinks_the_last_page() {
    let service = Service::with(1_000);
    let mut iter = numbers(citations(0, 50), Results::Limit(68), &service);
    let items = drain(&mut iter);
    assert_eq!(items, (0..68).collect::<Vec<u64>>());
    assert_eq!(service.requests(), vec![(0, 50), (50, 18)]);
    assert!(iter.next().is_none());
    assert_eq!(service.requests().len(), 2);
}

#[test]
fn yields_requested_number_in_order() {
    for (corpus, requested, limit) in
        [(500u64, 500u64, 100u64), (500, 1, 100), (500, 250, 7), (30, 30, 1), (101, 100, 100)]
    {
        let service = Service::with(corpus);
        let mut iter = numbers(citations(0, limit), Results::Limit(requested), &service);
        let items = drain(&mut iter);
        assert_eq!(items, (0..requested.min(corpus)).collect::<Vec<u64>>());
    }
}

#[test]
fn yields_whole_list_when_more_is_requested() {
    let service = Service::with(120);
    let mut iter = numbers(citations(0, 50), Results::Limit(5_000), &service);
    assert_eq!(drain(&mut iter), (0..120).collect::<Vec<u64>>());
    assert_eq!(service.requests(), vec![(0, 50), (50, 50), (100, 50)]);
}

#[test]
fn ends_after_the_last_page_without_another_request() {
    let service = Service::with(120);
    let mut iter = numbers(citations(0, 50), Results::All, &service);
    assert_eq!(drain(&mut iter), (0..120).collect::<Vec<u64>>());
    assert_eq!(service.requests(), vec![(0, 50), (50, 50), (100, 50)]);
    assert!(iter.next().is_none());
    assert!(iter.next().is_none());
    assert_eq!(service.requests().len(), 3);
}

#[test]
fn nothing_requested_asks_for_nothing() {
    let service = Service::with(120);
    let mut iter = numbers(citations(0, 50), Results::Limit(0), &service);
    assert!(iter.next().is_none());
    assert!(service.requests().is_empty());
}

#[test]
fn empty_list_yields_nothing() {
    let service = Service::with(0);
    let mut iter = numbers(citations(0, 50), Results::All, &service);
    assert!(iter.next().is_none());
    assert_eq!(service.requests(), vec![(0, 50)]);
    assert!(iter.next().is_none());
    assert_eq!(service.requests().len(), 1);
}

#[test]
fn stops_at_the_range_ceiling() {
    let service = Service::with(20_000);
    let mut iter = numbers(citations(9_900, 50), Results::All, &service);
    assert_eq!(drain(&mut iter), (9_900..9_999).collect::<Vec<u64>>());
    assert_eq!(service.requests(), vec![(9_900, 50), (9_950, 49)]);
}

#[test]
fn requested_limit_beyond_the_ceiling_yields_what_the_service_returns() {
    let service = Service::with(10_000);
    let mut iter = numbers(citations(0, 100), Results::Limit(10_000), &service);
    let items = drain(&mut iter);
    assert_eq!(items.len(), 9_999);
    assert_eq!(items, (0..9_999).collect::<Vec<u64>>());
    assert_eq!(service.requests().last(), Some(&(9_900, 99)));
}

#[test]
fn requested_limit_bounds_the_offset() {
    let service = Service::with(1_000);
    let mut iter = numbers(citations(50, 100), Results::Limit(68), &service);
    assert_eq!(drain(&mut iter), (50..68).collect::<Vec<u64>>());
    assert_eq!(service.requests(), vec![(50, 18)]);

    let service = Service::with(1_000);
    let mut iter = numbers(citations(50, 100), Results::Limit(10), &service);
    assert!(iter.next().is_none());
    assert!(service.requests().is_empty());
}

#[test]
fn errors_are_yielded_and_change_nothing() {
    let service = Service::with(300);
    let mut iter = numbers(citations(0, 100), Results::Limit(250), &service);
    for expected in 0..100 {
        assert_eq!(iter.next().expect("an item").expect("the service answers"), expected);
    }
    service.failing.set(true);
    for _ in 0..5 {
        match iter.next() {
            Some(Err(ApiError::Client { source })) => assert_eq!(source, "no answer for 100"),
            other => panic!("expected the error of the client, got {other:?}"),
        }
    }
    assert_eq!(
        service.requests(),
        vec![(0, 100), (100, 100), (100, 100), (100, 100), (100, 100), (100, 100)]
    );
    service.failing.set(false);
    assert_eq!(drain(&mut iter), (100..250).collect::<Vec<u64>>());
    assert_eq!(service.requests()[6..], [(100, 100), (200, 50)]);
}

#[test]
fn errors_from_the_first_request_on() {
    let service = Service::with(300);
    service.failing.set(true);
    let mut iter = numbers(citations(0, 100), Results::All, &service);
    for _ in 0..20 {
        assert!(matches!(iter.next(), Some(Err(_))));
    }
    assert_eq!(service.requests(), vec![(0, 100); 20]);
}

#[test]
fn search_reports_total_and_size_hint() {
    let service = Service::with(230);
    let mut iter = found(search(0, 100), Results::All, &service);
    assert_eq!(iter.total(), 0);
    assert_eq!(iter.size_hint(), (0, Some(0)));
    let mut yielded = 0;
    while let Some(item) = iter.next() {
        assert_eq!(item.expect("the service answers"), yielded);
        yielded += 1;
        assert_eq!(iter.total(), 230);
        let received = (yielded + 99) / 100 * 100;
        let left = 230 - received.min(230);
        assert_eq!(iter.size_hint(), (left as usize, Some(left as usize)));
    }
    assert_eq!(yielded, 230);
    assert_eq!(iter.total(), 230);
    assert_eq!(service.requests(), vec![(0, 100), (100, 100), (200, 100)]);
}

#[test]
fn size_hint_is_capped_at_what_the_service_returns() {
    let service = Service::with(50_000);
    let mut iter = found(search(0, 100), Results::All, &service);
    assert_eq!(iter.next().expect("an item").expect("the service answers"), 0);
    assert_eq!(iter.total(), 50_000);
    assert_eq!(iter.size_hint(), (9_899, Some(9_899)));
}

#[test]
fn size_hint_of_totals_and_counts() {
    assert_eq!(size_hint(0, 0), (0, Some(0)));
    assert_eq!(size_hint(230, 100), (130, Some(130)));
    assert_eq!(size_hint(230, 230), (0, Some(0)));
    assert_eq!(size_hint(230, 500), (0, Some(0)));
    assert_eq!(size_hint(9_998, 0), (9_998, Some(9_998)));
    assert_eq!(size_hint(9_999, 0), (9_999, Some(9_999)));
    assert_eq!(size_hint(10_000, 0), (9_999, Some(9_999)));
    assert_eq!(size_hint(u64::MAX, 9_000), (999, Some(999)));
    assert_eq!(size_hint(u64::MAX, u64::MAX), (0, Some(0)));
}

#[test]
fn endpoint_iterations() {
    let service = Service::with(130);
    let page = Page::new(0, 100).unwrap();
    let endpoint = GetPaperCitations::new(PaperCitationsParams::new(None, page), "p1".to_string());
    let mut iter = endpoint.paged::<Citation, Service>(Results::Limit(120), &service);
    let mut count = 0;
    while let Some(item) = iter.next() {
        assert_eq!(item.expect("the service answers"), Citation::default());
        count += 1;
    }
    assert_eq!(count, 120);
    assert_eq!(service.requests(), vec![(0, 100), (100, 20)]);

    let service = Service::with(130);
    let endpoint =
        GetPaperSearch::new(PaperSearchParams::new("covid".to_string(), None, page));
    let iter = endpoint.paged::<u64, Service>(Results::All, &service);
    assert_eq!(iter.total(), 0);
    assert_eq!(iter.size_hint(), (0, Some(0)));
}

#[test]
fn single_query_goes_through_the_client() {
    let service = Service::with(130);
    let page = Page::new(100, 100).unwrap();
    let endpoint = citations(page.get_offset(), page.get_limit());
    let batch: Batch<u64> = endpoint.query(&service).expect("the service answers");
    assert_eq!(batch.offset(), 100);
    assert_eq!(batch.get_next(), None);
    assert_eq!(batch.len(), 30);
    assert_eq!(Vec::from(batch), (100..130).collect::<Vec<u64>>());
}

#[test]
fn steps_of_an_iteration() {
    let service = Service::with(1_000);
    let mut iter: InnerEndpointIter<'_, u64, Citations, Service, Batch<u64>> =
        InnerEndpointIter::new(citations(0, 50), Batch::default(), Results::Limit(68), &service);
    assert!(matches!(iter.advance(), Advance::Request));
    assert!(matches!(iter.advance(), Advance::Request));
    let response: Result<Batch<u64>, String> = Ok(Batch::new(0, Some(50), vec![10, 11, 12]));
    assert_eq!(iter.receive(response), Some(Ok(10)));
    assert!(matches!(iter.advance(), Advance::Item(11)));
    assert!(matches!(iter.advance(), Advance::Item(12)));
    let failed: Result<Batch<u64>, String> = Err("refused".to_string());
    assert_eq!(iter.receive(failed), Some(Err("refused".to_string())));
    assert!(matches!(iter.advance(), Advance::Request));
    let last: Result<Batch<u64>, String> = Ok(Batch::new(50, None, vec![]));
    assert_eq!(iter.receive(last), None);
    assert!(matches!(iter.advance(), Advance::Done));
    assert!(service.requests().is_empty());
}

#[test]
fn an_iteration_takes_the_batch_it_is_given() {
    let service = Service::with(1_000);
    let batch = Batch::new(0, None, vec![1u64, 2, 3]);
    let mut iter: InnerEndpointIter<'_, u64, Citations, Service, Batch<u64>> =
        InnerEndpointIter::new(citations(40, 10), batch, Results::All, &service);
    // the items in hand are yielded from the end, then the page of the endpoint is asked for
    assert!(matches!(iter.advance(), Advance::Item(3)));
    assert!(matches!(iter.advance(), Advance::Item(2)));
    assert!(matches!(iter.advance(), Advance::Item(1)));
    assert!(matches!(iter.next(), Some(Ok(40))));
    assert_eq!(service.requests(), vec![(40, 10)]);
}

#[test]
fn page_steps_of_an_iteration() {
    let service = Service::with(1_000);
    let mut iter: InnerEndpointIter<'_, u64, Citations, Service, Batch<u64>> =
        InnerEndpointIter::new(citations(0, 50), Batch::default(), Results::Limit(68), &service);
    assert_eq!(iter.requested_limit(), Some(()));
    assert_eq!(iter.next_page(), Some(()));
    iter.update_current_page(Batch::new(0, Some(50), (0..50).collect()));
    assert_eq!(iter.requested_limit(), Some(()));
    iter.update_current_page(Batch::new(50, Some(68), (50..68).collect()));
    assert_eq!(iter.requested_limit(), None);
    assert_eq!(iter.next_page(), None);

    let mut open: InnerEndpointIter<'_, u64, Citations, Service, Batch<u64>> =
        InnerEndpointIter::new(citations(0, 50), Batch::default(), Results::All, &service);
    open.update_current_page(Batch::new(0, None, vec![]));
    assert_eq!(open.requested_limit(), Some(()));
    assert_eq!(open.next_page(), None);
}

#[test]
fn reverse_turns_items_around() {
    let mut items = vec![1, 2, 3, 4];
    reverse(&mut items);
    assert_eq!(items, vec![4, 3, 2, 1]);
    let mut none: Vec<u8> = vec![];
    reverse(&mut none);
    assert!(none.is_empty());
}

#[test]
fn batches() {
    let mut batch: Batch<u8> = Batch::default();
    assert_eq!((batch.offset(), batch.get_next(), batch.len()), (0, None, 0));
    batch.set_next(Some(7));
    batch.as_mut().push(9);
    assert_eq!((batch.get_next(), batch.len()), (Some(7), 1));
    assert_eq!(batch.as_ref(), &vec![9]);

    let mut found: SearchBatch<u8> = SearchBatch::default();
    assert_eq!((found.total(), found.offset(), found.get_next(), found.len()), (0, 0, None, 0));
    found.set_next(Some(3));
    found.as_mut().push(1);
    assert_eq!((found.get_next(), found.len()), (Some(3), 1));
    let found = SearchBatch::new(Batch::new(5, Some(8), vec![1u8, 2, 3]), 40);
    assert_eq!((found.total(), found.offset(), found.get_next(), found.len()), (40, 5, Some(8), 3));
    assert_eq!(Vec::from(found), vec![1, 2, 3]);
}
