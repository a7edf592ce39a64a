//! One page of results as the service returns it.

use vstd::prelude::*;

verus! {

/// One page of results: the items, the offset they start at and, unless
/// the list ends with them, the offset of the page that follows.
#[derive(Clone, Debug, PartialEq, Eq)]
pub struct Batch<T> {
    /// The offset of the first item in the whole list.
    pub offset: u64,
    /// The offset of the next page; `None` where the list has ended.
    pub next: Option<u64>,
    /// The items of the page, in the order of the list.
    pub data: Vec<T>,
}

/// One page of search results: a [`Batch`] and the number of matches of the
/// whole search.
#[derive(Clone, Debug, PartialEq, Eq)]
pub struct SearchBatch<T> {
    /// The page itself.
    pub base: Batch<T>,
    /// How many results the search has in all, as the service reports it
    /// with every page.
    pub total: u64,
}

/// A page of results that an iteration can take its items from.
pub trait Batched<T>: Sized {
    /// The offset of the first item in the whole list.
    spec fn spec_offset(&self) -> u64;

    /// The offset of the next page, if the list goes on.
    spec fn spec_next(&self) -> Option<u64>;

    /// The items that the page holds.
    spec fn spec_items(&self) -> Seq<T>;

    /// The number of results in all, where the page reports one.
    spec fn spec_total(&self) -> Option<u64>;

    /// The offset of the first item in the whole list.
    fn offset(&self) -> (offset: u64)
        ensures
            offset == self.spec_offset(),
    ;

    /// The offset of the next page, if the list goes on.
    fn get_next(&self) -> (next: Option<u64>)
        ensures
            next == self.spec_next(),
    ;

    /// Replaces the offset of the next page and nothing else.
    fn set_next(&mut self, next: Option<u64>)
        ensures
            final(self).spec_next() == next,
            final(self).spec_offset() == old(self).spec_offset(),
            final(self).spec_items() == old(self).spec_items(),
            final(self).spec_total() == old(self).spec_total(),
    ;

    /// The number of items that the page holds.
    fn len(&self) -> (len: usize)
        ensures
            len == self.spec_items().len(),
    ;

    /// The items that the page holds.
    fn as_ref(&self) -> (items: &Vec<T>)
        ensures
            items@ == self.spec_items(),
    ;

    /// The items that the page holds, to be taken out or reordered in
    /// place. Nothing but the items can be changed through it.
    fn as_mut(&mut self) -> (items: &mut Vec<T>)
        ensures
            items@ == old(self).spec_items(),
            final(self).spec_items() == final(items)@,
            final(self).spec_offset() == old(self).spec_offset(),
            final(self).spec_next() == old(self).spec_next(),
            final(self).spec_total() == old(self).spec_total(),
    ;
}

impl<T> Batch<T> {
    /// A page of `data` that starts at `offset` and is followed by the page
    /// at `next`.
    pub fn new(offset: u64, next: Option<u64>, data: Vec<T>) -> (batch: Batch<T>)
        ensures
            batch == (Batch { offset, next, data }),
    {
        Batch { offset, next, data }
    }
}

impl<T> Default for Batch<T> {
    fn default() -> (batch: Batch<T>)
        ensures
            batch.offset == 0,
            batch.next is None,
            batch.data@ == Seq::<T>::empty(),
    {
        Batch { offset: 0, next: None, data: Vec::new() }
    }
}

impl<T> From<Batch<T>> for Vec<T> {
    fn from(batch: Batch<T>) -> (data: Vec<T>) {
        batch.data
    }
}

impl<T> vstd::std_specs::convert::FromSpecImpl<Batch<T>> for Vec<T> {
    open spec fn obeys_from_spec() -> bool {
        true
    }

    open spec fn from_spec(batch: Batch<T>) -> Vec<T> {
        batch.data
    }
}

impl<T> Batched<T> for Batch<T> {
    open spec fn spec_offset(&self) -> u64 {
        self.offset
    }

    open spec fn spec_next(&self) -> Option<u64> {
        self.next
    }

    open spec fn spec_items(&self) -> Seq<T> {
        self.data@
    }

    open spec fn spec_total(&self) -> Option<u64> {
        None
    }

    fn offset(&self) -> (offset: u64) {
        self.offset
    }

    fn get_next(&self) -> (next: Option<u64>) {
        self.next
    }

    fn set_next(&mut self, next: Option<u64>) {
        self.next = next;
    }

    fn len(&self) -> (len: usize) {
        self.data.len()
    }

    fn as_ref(&self) -> (items: &Vec<T>) {
        &self.data
    }

    fn as_mut(&mut self) -> (items: &mut Vec<T>) {
        &mut self.data
    }
}

impl<T> SearchBatch<T> {
    /// A page of search results out of `total`.
    pub fn new(base: Batch<T>, total: u64) -> (batch: SearchBatch<T>)
        ensures
            batch == (SearchBatch { base, total }),
    {
        SearchBatch { base, total }
    }

    /// How many results the search has in all.
    pub fn total(&self) -> (total: u64)
        ensures
            total == self.total,
    {
        self.total
    }
}

impl<T> Default for SearchBatch<T> {
    fn default() -> (batch: SearchBatch<T>)
        ensures
            batch.base.offset == 0,
            batch.base.next is None,
            batch.base.data@ == Seq::<T>::empty(),
            batch.total == 0,
    {
        SearchBatch { base: Batch::default(), total: 0 }
    }
}

impl<T> From<SearchBatch<T>> for Vec<T> {
    fn from(batch: SearchBatch<T>) -> (data: Vec<T>) {
        batch.base.data
    }
}

impl<T> vstd::std_specs::convert::FromSpecImpl<SearchBatch<T>> for Vec<T> {
    open spec fn obeys_from_spec() -> bool {
        true
    }

    open spec fn from_spec(batch: SearchBatch<T>) -> Vec<T> {
        batch.base.data
    }
}

impl<T> Batched<T> for SearchBatch<T> {
    open spec fn spec_offset(&self) -> u64 {
        self.base.offset
    }

    open spec fn spec_next(&self) -> Option<u64> {
        self.base.next
    }

    open spec fn spec_items(&self) -> Seq<T> {
        self.base.data@
    }

    open spec fn spec_total(&self) -> Option<u64> {
        Some(self.total)
    }

    fn offset(&self) -> (offset: u64) {
        self.base.offset()
    }

    fn get_next(&self) -> (next: Option<u64>) {
        self.base.get_next()
    }

    fn set_next(&mut self, next: Option<u64>) {
        self.base.set_next(next);
    }

    fn len(&self) -> (len: usize) {
        self.base.len()
    }

    fn as_ref(&self) -> (items: &Vec<T>) {
        &self.base.data
    }

    fn as_mut(&mut self) -> (items: &mut Vec<T>) {
        &mut self.base.data
    }
}

} // verus!
