//! Papers as the service returns them.

use vstd::prelude::*;
use std::collections::HashSet;
use super::author::AuthorInfo;
use super::batch::{Batch, SearchBatch};

verus! {

/// What identifies a paper.
#[derive(Debug, Default, PartialEq, Eq)]
pub struct PaperInfo {
    /// The id of the paper at the service; it can be missing.
    pub paper_id: Option<String>,
    /// The page of the paper at the service.
    pub url: Option<String>,
    /// The title of the paper.
    pub title: Option<String>,
    /// Where the paper was published.
    pub venue: Option<String>,
    /// The year in which the paper was published.
    pub year: Option<u64>,
    /// The authors of the paper, 500 at most.
    pub authors: Option<HashSet<AuthorInfo>>,
}

/// The ids of a paper in other catalogues.
#[derive(Clone, Debug, Default, PartialEq, Eq)]
pub struct PaperExternalId {
    pub ar_xiv: Option<String>,
    pub mag: Option<String>,
    pub acl: Option<String>,
    pub pub_med: Option<String>,
    pub medline: Option<String>,
    pub pub_med_central: Option<String>,
    pub dblp: Option<String>,
    pub doi: Option<String>,
    pub corpus_id: Option<u64>,
}

/// A paper.
#[derive(Debug, Default, PartialEq, Eq)]
pub struct BasePaper {
    /// What identifies the paper.
    pub info: PaperInfo,
    /// The ids of the paper in other catalogues, where known.
    pub external_ids: Option<PaperExternalId>,
    /// The abstract of the paper.
    pub abstract_: Option<String>,
    /// The number of papers that the paper cites.
    pub reference_count: Option<u64>,
    /// The number of papers that cite the paper.
    pub citation_count: Option<u64>,
    /// The number of citations that had an influence on the citing paper.
    pub influential_citation_count: Option<u64>,
    /// Whether the paper is open access.
    pub is_open_access: Option<bool>,
    /// The fields of study of the paper.
    pub fields_of_study: Option<HashSet<String>>,
}

/// A paper with its authors, citations and references.
#[derive(Debug, Default, PartialEq, Eq)]
pub struct PaperWithLinks {
    /// The paper.
    pub base: BasePaper,
    /// The authors of the paper.
    pub authors: HashSet<AuthorInfo>,
    /// The papers that cite the paper.
    pub citations: Vec<PaperInfo>,
    /// The papers that the paper cites.
    pub references: Vec<PaperInfo>,
}

/// One page of papers.
#[derive(Clone, Debug, PartialEq, Eq)]
pub struct PaperBatch<T>(pub Batch<T>);

/// One page of the papers that a search found.
#[derive(Clone, Debug, PartialEq, Eq)]
pub struct PaperSearchBatch<T>(pub SearchBatch<T>);

impl From<BasePaper> for PaperInfo {
    fn from(paper: BasePaper) -> (info: PaperInfo) {
        paper.info
    }
}

impl vstd::std_specs::convert::FromSpecImpl<BasePaper> for PaperInfo {
    open spec fn obeys_from_spec() -> bool {
        true
    }

    open spec fn from_spec(paper: BasePaper) -> PaperInfo {
        paper.info
    }
}

impl From<PaperWithLinks> for PaperInfo {
    fn from(paper: PaperWithLinks) -> (info: PaperInfo) {
        paper.base.info
    }
}

impl vstd::std_specs::convert::FromSpecImpl<PaperWithLinks> for PaperInfo {
    open spec fn obeys_from_spec() -> bool {
        true
    }

    open spec fn from_spec(paper: PaperWithLinks) -> PaperInfo {
        paper.base.info
    }
}

impl From<PaperWithLinks> for BasePaper {
    fn from(paper: PaperWithLinks) -> (base: BasePaper) {
        paper.base
    }
}

impl vstd::std_specs::convert::FromSpecImpl<PaperWithLinks> for BasePaper {
    open spec fn obeys_from_spec() -> bool {
        true
    }

    open spec fn from_spec(paper: PaperWithLinks) -> BasePaper {
        paper.base
    }
}

impl<T> PaperBatch<T> {
    /// The offset of the first paper of the page in the whole list.
    pub fn get_offset(&self) -> (offset: u64)
        ensures
            offset == self.0.offset,
    {
        self.0.offset
    }

    /// The offset of the next page, if the list goes on.
    pub fn get_next(&self) -> (next: Option<u64>)
        ensures
            next == self.0.next,
    {
        self.0.next
    }

    /// The papers of the page.
    pub fn as_ref(&self) -> (items: &Vec<T>)
        ensures
            items@ == self.0.data@,
    {
        &self.0.data
    }
}

impl<T> Default for PaperBatch<T> {
    fn default() -> (batch: PaperBatch<T>)
        ensures
            batch.0.offset == 0,
            batch.0.next is None,
            batch.0.data@ == Seq::<T>::empty(),
    {
        PaperBatch(Batch::default())
    }
}

impl<T> From<PaperBatch<T>> for Vec<T> {
    fn from(batch: PaperBatch<T>) -> (data: Vec<T>) {
        batch.0.data
    }
}

impl<T> vstd::std_specs::convert::FromSpecImpl<PaperBatch<T>> for Vec<T> {
    open spec fn obeys_from_spec() -> bool {
        true
    }

    open spec fn from_spec(batch: PaperBatch<T>) -> Vec<T> {
        batch.0.data
    }
}

impl<T> PaperSearchBatch<T> {
    /// The offset of the first paper of the page in the whole list.
    pub fn get_offset(&self) -> (offset: u64)
        ensures
            offset == self.0.base.offset,
    {
        self.0.base.offset
    }

    /// The offset of the next page, if the list goes on.
    pub fn get_next(&self) -> (next: Option<u64>)
        ensures
            next == self.0.base.next,
    {
        self.0.base.next
    }

    /// How many papers the search found in all.
    pub fn get_total(&self) -> (total: u64)
        ensures
            total == self.0.total,
    {
        self.0.total
    }

    /// The papers of the page.
    pub fn as_ref(&self) -> (items: &Vec<T>)
        ensures
            items@ == self.0.base.data@,
    {
        &self.0.base.data
    }
}

impl<T> Default for PaperSearchBatch<T> {
    fn default() -> (batch: PaperSearchBatch<T>)
        ensures
            batch.0.base.offset == 0,
            batch.0.base.next is None,
            batch.0.base.data@ == Seq::<T>::empty(),
            batch.0.total == 0,
    {
        PaperSearchBatch(SearchBatch::default())
    }
}

impl<T> From<PaperSearchBatch<T>> for Vec<T> {
    fn from(batch: PaperSearchBatch<T>) -> (data: Vec<T>) {
        batch.0.base.data
    }
}

impl<T> vstd::std_specs::convert::FromSpecImpl<PaperSearchBatch<T>> for Vec<T> {
    open spec fn obeys_from_spec() -> bool {
        true
    }

    open spec fn from_spec(batch: PaperSearchBatch<T>) -> Vec<T> {
        batch.0.base.data
    }
}

} // verus!
