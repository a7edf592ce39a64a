//! Authors as the service returns them.

use vstd::prelude::*;
use std::collections::HashSet;
use super::batch::{Batch, Batched, SearchBatch};
use super::paper::BasePaper;

verus! {

/// What identifies an author.
#[derive(Clone, Debug, Default, PartialEq, Eq, Hash)]
pub struct AuthorInfo {
    /// The id of the author at the service; it can be missing.
    pub author_id: Option<String>,
    /// The name of the author.
    pub name: Option<String>,
}

/// The ids of an author in other catalogues.
#[derive(Debug, Default, PartialEq, Eq)]
pub struct AuthorExternalId {
    dblp: Option<HashSet<String>>,
    orcid: Option<String>,
}

/// An author.
#[derive(Debug, Default, PartialEq, Eq)]
pub struct Author {
    /// What identifies the author.
    pub info: AuthorInfo,
    /// The ids of the author in other catalogues, where known.
    pub external_ids: Option<AuthorExternalId>,
    /// The page of the author at the service.
    pub url: Option<String>,
    /// Other names of the author.
    pub aliases: Option<HashSet<String>>,
    /// The institutions of the author.
    pub affiliations: Option<HashSet<String>>,
    /// The author's own page.
    pub homepage: Option<String>,
    /// The number of papers of the author.
    pub paper_count: Option<u64>,
    /// The number of citations of the author's papers.
    pub citation_count: Option<u64>,
    /// The h-index of the author.
    pub h_index: Option<u64>,
}

/// An author with the author's papers.
#[derive(Debug, Default, PartialEq, Eq)]
pub struct AuthorWithPapers {
    /// The author.
    pub author: Author,
    /// The papers of the author.
    pub papers: Option<Vec<BasePaper>>,
}

/// One page of authors.
#[derive(Debug, PartialEq, Eq)]
pub struct AuthorBatch(pub Batch<AuthorWithPapers>);

/// One page of the authors that a search found.
#[derive(Debug, PartialEq, Eq)]
pub struct AuthorSearchBatch(pub SearchBatch<AuthorWithPapers>);

impl AuthorExternalId {
    /// The ids of an author at DBLP and ORCID.
    pub fn new(dblp: Option<HashSet<String>>, orcid: Option<String>) -> (ids: AuthorExternalId)
        ensures
            ids.spec_dblp() == dblp,
            ids.spec_orcid() == orcid,
    {
        AuthorExternalId { dblp, orcid }
    }

    /// The ids of the author at DBLP.
    pub closed spec fn spec_dblp(&self) -> Option<HashSet<String>> {
        self.dblp
    }

    /// The id of the author at ORCID.
    pub closed spec fn spec_orcid(&self) -> Option<String> {
        self.orcid
    }

    /// The ids of the author at DBLP.
    pub fn dblp(&self) -> (dblp: &Option<HashSet<String>>)
        ensures
            *dblp == self.spec_dblp(),
    {
        &self.dblp
    }

    /// The id of the author at ORCID.
    pub fn orcid(&self) -> (orcid: &Option<String>)
        ensures
            *orcid == self.spec_orcid(),
    {
        &self.orcid
    }
}

impl From<Author> for AuthorInfo {
    fn from(author: Author) -> (info: AuthorInfo) {
        author.info
    }
}

impl vstd::std_specs::convert::FromSpecImpl<Author> for AuthorInfo {
    open spec fn obeys_from_spec() -> bool {
        true
    }

    open spec fn from_spec(author: Author) -> AuthorInfo {
        author.info
    }
}

impl From<AuthorWithPapers> for AuthorInfo {
    fn from(author: AuthorWithPapers) -> (info: AuthorInfo) {
        author.author.info
    }
}

impl vstd::std_specs::convert::FromSpecImpl<AuthorWithPapers> for AuthorInfo {
    open spec fn obeys_from_spec() -> bool {
        true
    }

    open spec fn from_spec(author: AuthorWithPapers) -> AuthorInfo {
        author.author.info
    }
}

impl From<AuthorWithPapers> for Author {
    fn from(author: AuthorWithPapers) -> (res: Author) {
        author.author
    }
}

impl vstd::std_specs::convert::FromSpecImpl<AuthorWithPapers> for Author {
    open spec fn obeys_from_spec() -> bool {
        true
    }

    open spec fn from_spec(author: AuthorWithPapers) -> Author {
        author.author
    }
}

impl Default for AuthorBatch {
    fn default() -> (batch: AuthorBatch)
        ensures
            batch.0.offset == 0,
            batch.0.next is None,
            batch.0.data@ == Seq::<AuthorWithPapers>::empty(),
    {
        AuthorBatch(Batch::default())
    }
}

impl Batched<AuthorWithPapers> for AuthorBatch {
    open spec fn spec_offset(&self) -> u64 {
        self.0.offset
    }

    open spec fn spec_next(&self) -> Option<u64> {
        self.0.next
    }

    open spec fn spec_items(&self) -> Seq<AuthorWithPapers> {
        self.0.data@
    }

    open spec fn spec_total(&self) -> Option<u64> {
        None
    }

    fn offset(&self) -> (offset: u64) {
        self.0.offset()
    }

    fn get_next(&self) -> (next: Option<u64>) {
        self.0.get_next()
    }

    fn set_next(&mut self, next: Option<u64>) {
        self.0.set_next(next)
    }

    fn len(&self) -> (len: usize) {
        self.0.len()
    }

    fn as_ref(&self) -> (items: &Vec<AuthorWithPapers>) {
        &self.0.data
    }

    fn as_mut(&mut self) -> (items: &mut Vec<AuthorWithPapers>) {
        &mut self.0.data
    }
}

impl From<AuthorBatch> for Vec<AuthorWithPapers> {
    fn from(batch: AuthorBatch) -> (data: Vec<AuthorWithPapers>) {
        batch.0.data
    }
}

impl vstd::std_specs::convert::FromSpecImpl<AuthorBatch> for Vec<AuthorWithPapers> {
    open spec fn obeys_from_spec() -> bool {
        true
    }

    open spec fn from_spec(batch: AuthorBatch) -> Vec<AuthorWithPapers> {
        batch.0.data
    }
}

impl AuthorSearchBatch {
    /// How many authors the search found in all.
    pub fn total(&self) -> (total: u64)
        ensures
            total == self.0.total,
    {
        self.0.total
    }
}

impl Default for AuthorSearchBatch {
    fn default() -> (batch: AuthorSearchBatch)
        ensures
            batch.0.base.offset == 0,
            batch.0.base.next is None,
            batch.0.base.data@ == Seq::<AuthorWithPapers>::empty(),
            batch.0.total == 0,
    {
        AuthorSearchBatch(SearchBatch::default())
    }
}

impl Batched<AuthorWithPapers> for AuthorSearchBatch {
    open spec fn spec_offset(&self) -> u64 {
        self.0.base.offset
    }

    open spec fn spec_next(&self) -> Option<u64> {
        self.0.base.next
    }

    open spec fn spec_items(&self) -> Seq<AuthorWithPapers> {
        self.0.base.data@
    }

    open spec fn spec_total(&self) -> Option<u64> {
        Some(self.0.total)
    }

    fn offset(&self) -> (offset: u64) {
        self.0.offset()
    }

    fn get_next(&self) -> (next: Option<u64>) {
        self.0.get_next()
    }

    fn set_next(&mut self, next: Option<u64>) {
        self.0.set_next(next)
    }

    fn len(&self) -> (len: usize) {
        self.0.len()
    }

    fn as_ref(&self) -> (items: &Vec<AuthorWithPapers>) {
        &self.0.base.data
    }

    fn as_mut(&mut self) -> (items: &mut Vec<AuthorWithPapers>) {
        &mut self.0.base.data
    }
}

impl From<AuthorSearchBatch> for Vec<AuthorWithPapers> {
    fn from(batch: AuthorSearchBatch) -> (data: Vec<AuthorWithPapers>) {
        batch.0.base.data
    }
}

impl vstd::std_specs::convert::FromSpecImpl<AuthorSearchBatch> for Vec<AuthorWithPapers> {
    open spec fn obeys_from_spec() -> bool {
        true
    }

    open spec fn from_spec(batch: AuthorSearchBatch) -> Vec<AuthorWithPapers> {
        batch.0.base.data
    }
}

} // verus!
