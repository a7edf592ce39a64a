//! Citations as the service returns them.

use vstd::prelude::*;
use std::collections::HashSet;
use super::batch::{Batch, Batched};
use super::paper::BasePaper;

verus! {

/// A citation of a paper: the paper that cites it and how.
#[derive(Debug, Default, PartialEq, Eq)]
pub struct Citation {
    /// The paper that cites.
    pub citing_paper: Option<BasePaper>,
    /// The passages in which the citation is made.
    pub contexts: Option<HashSet<String>>,
    /// What the citation is made for.
    pub intents: Option<HashSet<String>>,
    /// Whether the cited paper had an influence on the citing one.
    pub is_influential: Option<bool>,
}

/// One page of citations.
#[derive(Debug, PartialEq, Eq)]
pub struct CitationBatch(pub Batch<Citation>);

impl Default for CitationBatch {
    fn default() -> (batch: CitationBatch)
        ensures
            batch.0.offset == 0,
            batch.0.next is None,
            batch.0.data@ == Seq::<Citation>::empty(),
    {
        CitationBatch(Batch::default())
    }
}

impl Batched<Citation> for CitationBatch {
    open spec fn spec_offset(&self) -> u64 {
        self.0.offset
    }

    open spec fn spec_next(&self) -> Option<u64> {
        self.0.next
    }

    open spec fn spec_items(&self) -> Seq<Citation> {
        self.0.data@
    }

    open spec fn spec_total(&self) -> Option<u64> {
        None
    }

    fn offset(&self) -> (offset: u64) {
        self.0.offset()
    }

    fn get_next(&self) -> (next: Option<u64>) {
        self.0.get_next()
    }

    fn set_next(&mut self, next: Option<u64>) {
        self.0.set_next(next)
    }

    fn len(&self) -> (len: usize) {
        self.0.len()
    }

    fn as_ref(&self) -> (items: &Vec<Citation>) {
        &self.0.data
    }

    fn as_mut(&mut self) -> (items: &mut Vec<Citation>) {
        &mut self.0.data
    }
}

impl From<CitationBatch> for Vec<Citation> {
    fn from(batch: CitationBatch) -> (data: Vec<Citation>) {
        batch.0.data
    }
}

impl vstd::std_specs::convert::FromSpecImpl<CitationBatch> for Vec<Citation> {
    open spec fn obeys_from_spec() -> bool {
        true
    }

    open spec fn from_spec(batch: CitationBatch) -> Vec<Citation> {
        batch.0.data
    }
}

} // verus!
