//! The iteration over a paged endpoint.
//!
//! An iteration holds one page of results at a time. When the page is used
//! up it decides whether another one is to be asked for, moves the
//! endpoint's [`Page`] there and hands the request out; the response comes
//! back as a batch, whose items are then yielded one by one.
//!
//! An error of the service or the client is yielded like an item and
//! changes nothing: the next call asks for the same page again. An
//! iteration over an endpoint that fails forever yields errors forever, and
//! it is for the caller to stop at the first one.

use vstd::prelude::*;
use std::marker::PhantomData;
use crate::client::{BaseClient, Client};
use crate::endpoint::Endpoint;
use crate::error::ApiError;
use crate::query::Query;
use crate::v1::definition::batch::{Batch, Batched, SearchBatch};
use crate::v1::pagination::{Page, Paged, Results};

verus! {

/// What an iteration is made of, as far as its course depends on it.
pub struct IterView<T> {
    /// The offset of the endpoint's page.
    pub offset: u64,
    /// The limit of the endpoint's page.
    pub limit: u64,
    /// The offset of the page that follows the one in hand, if the service
    /// named one.
    pub next: Option<u64>,
    /// The items in hand. They are yielded from the end.
    pub buffer: Seq<T>,
    /// The number of results in all, where the batch in hand reports one.
    pub total: Option<u64>,
    /// How many results were asked for.
    pub results: Results,
    /// How many items the batches received so far held.
    pub count: u64,
}

/// What an iteration does next.
pub enum Advance<T> {
    /// It yields this item.
    Item(T),
    /// It needs the page that the endpoint now points at.
    Request,
    /// It has ended.
    Done,
}

impl<T> IterView<T> {
    /// An iteration as it is made for an endpoint whose page has `limit`
    /// results at `offset`: with nothing in hand, it is to ask for that
    /// page first. An iteration over a search reports a total, 0 for a
    /// start.
    pub open spec fn start(offset: u64, limit: u64, results: Results, search: bool) -> Self {
        IterView {
            offset,
            limit,
            next: Some(offset),
            buffer: Seq::empty(),
            total: if search {
                Some(0u64)
            } else {
                None
            },
            results,
            count: 0,
        }
    }

    /// Whether as many items were received as were asked for.
    pub open spec fn cap_reached(self) -> bool {
        self.results matches Results::Limit(requested) && self.count >= requested
    }

    /// The limit that the page is cut down to before the next request,
    /// where the page as it is would reach the number of results asked
    /// for: what is left up to that number.
    pub open spec fn capped_limit(self) -> Option<u64> {
        match (self.results, self.next) {
            (Results::Limit(requested), Some(next)) => if next.saturating_add(self.limit)
                >= requested {
                Some(requested.saturating_sub(next))
            } else {
                None
            },
            _ => None,
        }
    }

    /// The iteration after it has held its page against the number of
    /// results asked for, and whether it goes on.
    pub open spec fn requested_limit(self) -> (Self, bool) {
        if self.cap_reached() {
            (self, false)
        } else {
            match self.capped_limit() {
                Some(limit) => if Page::valid(self.offset, limit) {
                    (IterView { limit, ..self }, true)
                } else {
                    (self, false)
                },
                None => (self, true),
            }
        }
    }

    /// The iteration after it has tried to move to the next page, and
    /// whether there is a page to ask for.
    pub open spec fn next_page(self) -> (Self, bool) {
        let (checked, go) = self.requested_limit();
        if !go {
            (checked, false)
        } else {
            match checked.next {
                Some(next) => match Page::next_limit(checked.limit, next) {
                    Some(limit) => (IterView { offset: next, limit, ..checked }, true),
                    None => (checked, false),
                },
                None => (checked, false),
            }
        }
    }

    /// The iteration after it has taken in a batch with these items.
    pub open spec fn update_current_page(
        self,
        next: Option<u64>,
        items: Seq<T>,
        total: Option<u64>,
    ) -> Self {
        IterView {
            next,
            buffer: items,
            total,
            count: if self.count + items.len() > u64::MAX {
                u64::MAX
            } else {
                (self.count + items.len()) as u64
            },
            ..self
        }
    }

    /// The iteration after one step without a response, and what the step
    /// gives: the last item in hand, or else the move to the next page.
    pub open spec fn advance(self) -> (Self, Advance<T>) {
        if self.buffer.len() > 0 {
            (IterView { buffer: self.buffer.drop_last(), ..self }, Advance::Item(self.buffer.last()))
        } else {
            let (moved, go) = self.next_page();
            (
                moved,
                if go {
                    Advance::Request
                } else {
                    Advance::Done
                },
            )
        }
    }

    /// The iteration after it has received a batch with these items, and
    /// the item that it yields at once: the first of the batch, if there is
    /// one. The others are kept in reverse, the second at the end.
    pub open spec fn receive(self, next: Option<u64>, items: Seq<T>, total: Option<u64>) -> (
        Self,
        Option<T>,
    ) {
        let updated = self.update_current_page(next, items.reverse(), total);
        if items.len() > 0 {
            (IterView { buffer: items.reverse().drop_last(), ..updated }, Some(items[0]))
        } else {
            (updated, None)
        }
    }
}

/// Turns `items` around in place.
pub fn reverse<T>(items: &mut Vec<T>)
    ensures
        final(items)@ == old(items)@.reverse(),
{
    let ghost start = items@;
    let mut turned: Vec<T> = Vec::new();
    while items.len() > 0
        invariant
            items@.len() <= start.len(),
            items@ == start.subrange(0, items@.len() as int),
            turned@.len() == start.len() - items@.len(),
            forall|i: int|
                0 <= i < turned@.len() ==> turned@[i] == #[trigger] start[start.len() - 1 - i],
        decreases items@.len(),
    {
        let last = items.pop();
        match last {
            Some(item) => turned.push(item),
            None => {},
        }
    }
    assert(turned@ =~= start.reverse());
    *items = turned;
}

/// An iteration over the results of a paged endpoint `E`, asked for
/// through the client `C`, in batches `B` of items `T`.
pub struct InnerEndpointIter<'c, T, E, C, B> {
    endpoint: E,
    client: &'c C,
    batch: B,
    results: Results,
    count: u64,
    _marker: PhantomData<T>,
}

impl<'c, T, E: Paged, C, B: Batched<T>> View for InnerEndpointIter<'c, T, E, C, B> {
    type V = IterView<T>;

    closed spec fn view(&self) -> IterView<T> {
        IterView {
            offset: self.endpoint.page().offset(),
            limit: self.endpoint.page().limit(),
            next: self.batch.spec_next(),
            buffer: self.batch.spec_items(),
            total: self.batch.spec_total(),
            results: self.results,
            count: self.count,
        }
    }
}

impl<'c, T, E: Paged, C, B: Batched<T>> InnerEndpointIter<'c, T, E, C, B> {
    /// What the endpoint holds beside its page. No step of the iteration
    /// changes it.
    pub closed spec fn request(&self) -> E {
        self.endpoint.beside_page()
    }

    /// The endpoint, with its page where the iteration has moved it.
    pub fn endpoint(&self) -> (endpoint: &E)
        ensures
            endpoint.page().offset() == self@.offset,
            endpoint.page().limit() == self@.limit,
            endpoint.beside_page() == self.request(),
    {
        &self.endpoint
    }

    /// The client that the requests go through.
    pub closed spec fn spec_client(&self) -> &'c C {
        self.client
    }

    /// The client that the requests go through.
    pub fn client(&self) -> (client: &'c C)
        ensures
            client == self.spec_client(),
    {
        self.client
    }

    /// The batch in hand, without the items that were yielded already.
    pub fn batch(&self) -> (batch: &B)
        ensures
            batch.spec_next() == self@.next,
            batch.spec_items() == self@.buffer,
            batch.spec_total() == self@.total,
    {
        &self.batch
    }

    /// How many items the batches received so far held.
    pub fn count(&self) -> (count: u64)
        ensures
            count == self@.count,
    {
        self.count
    }

    /// An iteration that starts at the endpoint's page and takes `batch` as
    /// the batch in hand; with an empty one, its first step asks for that
    /// page.
    pub fn new(endpoint: E, batch: B, results: Results, client: &'c C) -> (iter: Self)
        ensures
            iter@ == (IterView {
                offset: endpoint.page().offset(),
                limit: endpoint.page().limit(),
                next: Some(endpoint.page().offset()),
                buffer: batch.spec_items(),
                total: batch.spec_total(),
                results,
                count: 0,
            }),
            iter.request() == endpoint.beside_page(),
            iter.spec_client() == client,
    {
        let mut batch = batch;
        batch.set_next(Some(endpoint.get_offset()));
        Self { endpoint, results, client, batch, _marker: PhantomData, count: 0 }
    }

    /// Takes in a batch that the service returned: it replaces the batch in
    /// hand, and its items are counted, up to `u64::MAX`.
    pub fn update_current_page(&mut self, batch: B)
        ensures
            final(self)@ == old(self)@.update_current_page(
                batch.spec_next(),
                batch.spec_items(),
                batch.spec_total(),
            ),
            final(self).request() == old(self).request(),
            final(self).spec_client() == old(self).spec_client(),
    {
        self.count = self.count.saturating_add(batch.len() as u64);
        self.batch = batch;
    }

    /// Holds the page against the number of results asked for. `None` ends
    /// the iteration: as many items were received as were asked for, or the
    /// limit that is left is none that the page accepts. Where the page as
    /// it is would reach that number, its limit is cut down to what is
    /// left.
    pub fn requested_limit(&mut self) -> (go: Option<()>)
        ensures
            final(self)@ == old(self)@.requested_limit().0,
            go is Some <==> old(self)@.requested_limit().1,
            final(self).request() == old(self).request(),
            final(self).spec_client() == old(self).spec_client(),
    {
        if let Results::Limit(requested) = self.results {
            if self.count >= requested {
                return None;
            }
            if let Some(next) = self.batch.get_next() {
                let mut limit = self.endpoint.get_limit();
                if next.saturating_add(limit) >= requested {
                    limit = requested.saturating_sub(next);
                    match self.endpoint.set_limit(limit) {
                        Ok(()) => {},
                        Err(_) => {
                            return None;
                        },
                    }
                }
            }
        }
        Some(())
    }

    /// Moves the endpoint's page to the page that follows the batch in
    /// hand. `None` ends the iteration: the number of results asked for is
    /// reached, the service named no next page, or the next page lies
    /// beyond what the service returns.
    pub fn next_page(&mut self) -> (go: Option<()>)
        ensures
            final(self)@ == old(self)@.next_page().0,
            go is Some <==> old(self)@.next_page().1,
            old(self)@.next is None ==> go is None,
            final(self).request() == old(self).request(),
            final(self).spec_client() == old(self).spec_client(),
    {
        match self.requested_limit() {
            Some(()) => {},
            None => {
                return None;
            },
        }
        if let Some(next) = self.batch.get_next() {
            match self.endpoint.next_page(next) {
                Ok(()) => Some(()),
                Err(_) => None,
            }
        } else {
            None
        }
    }

    /// One step that needs no response: yields the last item in hand or,
    /// with none in hand, moves to the next page and says whether it is to
    /// be asked for.
    pub fn advance(&mut self) -> (step: Advance<T>)
        ensures
            final(self)@ == old(self)@.advance().0,
            step == old(self)@.advance().1,
            final(self).request() == old(self).request(),
            final(self).spec_client() == old(self).spec_client(),
    {
        if self.batch.as_ref().is_empty() {
            match self.next_page() {
                Some(()) => Advance::Request,
                None => Advance::Done,
            }
        } else {
            match self.batch.as_mut().pop() {
                Some(item) => Advance::Item(item),
                None => Advance::Done,
            }
        }
    }

    /// The step that follows a request: takes in the response.
    ///
    /// An error is yielded as it is, and the iteration stays as it was: the
    /// next step asks for the same page. A batch replaces the one in hand;
    /// its first item is yielded and the others are kept, to be yielded in
    /// the order of the batch. An empty batch yields nothing, which ends
    /// the iteration for the caller.
    pub fn receive<X>(&mut self, response: Result<B, X>) -> (item: Option<Result<T, X>>)
        ensures
            response matches Err(err) ==> item == Some(Err::<T, X>(err)) && final(self)@ == old(
                self,
            )@,
            response matches Ok(batch) ==> {
                let received = old(self)@.receive(
                    batch.spec_next(),
                    batch.spec_items(),
                    batch.spec_total(),
                );
                &&& final(self)@ == received.0
                &&& item == match received.1 {
                    Some(first) => Some(Ok::<T, X>(first)),
                    None => None,
                }
            },
            final(self).request() == old(self).request(),
            final(self).spec_client() == old(self).spec_client(),
    {
        match response {
            Err(err) => Some(Err(err)),
            Ok(batch) => {
                self.update_current_page(batch);
                reverse(self.batch.as_mut());
                match self.batch.as_mut().pop() {
                    Some(item) => Some(Ok(item)),
                    None => None,
                }
            },
        }
    }
}

impl<T> IterView<T> {
    /// What a call of `next` may leave behind and yield, whatever the
    /// service does: the outcome of the step without a response or, where
    /// that step asks for a page, an error with nothing else changed, or
    /// the outcome of some batch received.
    pub open spec fn next_outcome<X>(self, after: Self, item: Option<Result<T, X>>) -> bool {
        let (moved, step) = self.advance();
        match step {
            Advance::Item(first) => after == moved && item == Some(Ok::<T, X>(first)),
            Advance::Done => after == moved && item is None,
            Advance::Request => {
                ||| after == moved && item is Some && item->Some_0 is Err
                ||| exists|next: Option<u64>, items: Seq<T>, total: Option<u64>|
                    {
                        &&& after == (#[trigger] moved.receive(next, items, total)).0
                        &&& item == match moved.receive(next, items, total).1 {
                            Some(first) => Some(Ok::<T, X>(first)),
                            None => None,
                        }
                    }
            },
        }
    }
}

impl<'c, T, E, C, B> InnerEndpointIter<'c, T, E, C, B> where
    E: Endpoint + Paged + Query<B, E, C>,
    C: Client,
    B: Batched<T>,
 {
    /// The next item of the iteration, or the error of the request that
    /// was made for it; `None` where the iteration has ended.
    ///
    /// With items in hand the last of them is yielded. Otherwise the
    /// iteration moves to the next page, asks the endpoint for it once and
    /// takes in the response, as [`Self::receive`] does. The request can
    /// end either way, so the contract gives both outcomes.
    pub fn next(&mut self) -> (item: Option<
        Result<T, ApiError<<E as Endpoint>::Error, <C as BaseClient>::Error>>,
    >)
        ensures
            old(self)@.next_outcome(final(self)@, item),
            final(self).request() == old(self).request(),
            final(self).spec_client() == old(self).spec_client(),
    {
        match self.advance() {
            Advance::Item(item) => Some(Ok(item)),
            Advance::Done => None,
            Advance::Request => {
                let response = self.endpoint.query(self.client);
                self.receive(response)
            },
        }
    }
}

/// An iteration over an endpoint that answers with plain batches.
pub struct BatchEndpointIter<'c, T, E, C>(InnerEndpointIter<'c, T, E, C, Batch<T>>);

impl<'c, T, E: Paged, C> View for BatchEndpointIter<'c, T, E, C> {
    type V = IterView<T>;

    closed spec fn view(&self) -> IterView<T> {
        self.0@
    }
}

impl<'c, T, E: Paged, C> BatchEndpointIter<'c, T, E, C> {
    /// What the endpoint holds beside its page.
    pub closed spec fn request(&self) -> E {
        self.0.request()
    }

    /// The client that the requests go through.
    pub closed spec fn spec_client(&self) -> &'c C {
        self.0.spec_client()
    }

    /// An iteration that starts at the endpoint's page with nothing in
    /// hand.
    pub fn new(endpoint: E, results: Results, client: &'c C) -> (iter: Self)
        ensures
            iter@ == IterView::<T>::start(
                endpoint.page().offset(),
                endpoint.page().limit(),
                results,
                false,
            ),
            iter.request() == endpoint.beside_page(),
            iter.spec_client() == client,
    {
        let batch = Batch::default();
        BatchEndpointIter(InnerEndpointIter::new(endpoint, batch, results, client))
    }
}

impl<'c, T, E, C> BatchEndpointIter<'c, T, E, C> where
    E: Endpoint + Paged + Query<Batch<T>, E, C>,
    C: Client,
 {
    /// The next item of the iteration, as [`InnerEndpointIter::next`]
    /// gives it.
    pub fn next(&mut self) -> (item: Option<
        Result<T, ApiError<<E as Endpoint>::Error, <C as BaseClient>::Error>>,
    >)
        ensures
            old(self)@.next_outcome(final(self)@, item),
            final(self).request() == old(self).request(),
            final(self).spec_client() == old(self).spec_client(),
    {
        self.0.next()
    }
}

/// How many results of a search are still to be received: its total, cut
/// down to the `Page::SUM_MAX` results that the service returns of any list
/// at most, less what was received. The items in hand are not among them.
pub open spec fn remainder(total: u64, count: u64) -> nat {
    let within = if total < Page::SUM_MAX {
        total
    } else {
        Page::SUM_MAX
    };
    if within > count {
        (within - count) as nat
    } else {
        0
    }
}

/// The size hint of an iteration over a search that reports `total`
/// results, after `count` items were received: how many are still to be
/// received, as both bounds. It is 0 where more was received than the
/// total tells.
pub fn size_hint(total: u64, count: u64) -> (hint: (usize, Option<usize>))
    ensures
        hint.0 == remainder(total, count),
        hint.1 == Some(hint.0),
{
    let limit = if total < Page::SUM_MAX {
        total
    } else {
        Page::SUM_MAX
    };
    let remainder = limit.saturating_sub(count) as usize;
    (remainder, Some(remainder))
}

/// An iteration over an endpoint that answers with batches of a search.
pub struct SearchBatchEndpointIter<'c, T, E, C>(InnerEndpointIter<'c, T, E, C, SearchBatch<T>>);

impl<'c, T, E: Paged, C> View for SearchBatchEndpointIter<'c, T, E, C> {
    type V = IterView<T>;

    closed spec fn view(&self) -> IterView<T> {
        self.0@
    }
}

impl<'c, T, E: Paged, C> SearchBatchEndpointIter<'c, T, E, C> {
    /// What the endpoint holds beside its page.
    pub closed spec fn request(&self) -> E {
        self.0.request()
    }

    /// The client that the requests go through.
    pub closed spec fn spec_client(&self) -> &'c C {
        self.0.spec_client()
    }

    /// An iteration that starts at the endpoint's page with nothing in
    /// hand and a total of 0.
    pub fn new(endpoint: E, results: Results, client: &'c C) -> (iter: Self)
        ensures
            iter@ == IterView::<T>::start(
                endpoint.page().offset(),
                endpoint.page().limit(),
                results,
                true,
            ),
            iter.request() == endpoint.beside_page(),
            iter.spec_client() == client,
    {
        let batch = SearchBatch::default();
        SearchBatchEndpointIter(InnerEndpointIter::new(endpoint, batch, results, client))
    }

    /// The number of results of the whole search, as the batch in hand
    /// reports it: 0 before the first response.
    pub fn total(&self) -> (total: u64)
        ensures
            self@.total == Some(total),
    {
        self.0.batch.total()
    }

    /// How many results are still to be received, as both bounds of a size
    /// hint: the total of the search, as far as the service returns
    /// results at all, less the items received.
    pub fn size_hint(&self) -> (hint: (usize, Option<usize>))
        ensures
            self@.total matches Some(total) && hint.0 == remainder(
                total,
                self@.count,
            ),
            hint.1 == Some(hint.0),
    {
        size_hint(self.0.batch.total(), self.0.count)
    }
}

impl<'c, T, E, C> SearchBatchEndpointIter<'c, T, E, C> where
    E: Endpoint + Paged + Query<SearchBatch<T>, E, C>,
    C: Client,
 {
    /// The next item of the iteration, as [`InnerEndpointIter::next`]
    /// gives it.
    pub fn next(&mut self) -> (item: Option<
        Result<T, ApiError<<E as Endpoint>::Error, <C as BaseClient>::Error>>,
    >)
        ensures
            old(self)@.next_outcome(final(self)@, item),
            final(self).request() == old(self).request(),
            final(self).spec_client() == old(self).spec_client(),
    {
        self.0.next()
    }
}

} // verus!
