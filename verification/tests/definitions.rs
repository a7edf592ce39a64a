use std::collections::HashSet;

use scholars::v1::definition::author::{
    Author, AuthorBatch, AuthorExternalId, AuthorInfo, AuthorSearchBatch, AuthorWithPapers,
};
use scholars::v1::definition::batch::{Batch, Batched, SearchBatch};
use scholars::v1::definition::citation::{Citation, CitationBatch};
use scholars::v1::definition::paper::{
    BasePaper, PaperBatch, PaperInfo, PaperSearchBatch, PaperWithLinks,
};
use scholars::v1::definition::reference::{Reference, ReferenceBatch};
use scholars::v1::definition::tldr::Tldr;

fn author(name: &str) -> AuthorWithPapers {
    let info = AuthorInfo { author_id: Some("1".to_string()), name: Some(name.to_string()) };
    AuthorWithPapers { author: Author { info, ..Author::default() }, papers: None }
}

fn paper(title: &str) -> PaperWithLinks {
    let info = PaperInfo { title: Some(title.to_string()), ..PaperInfo::default() };
    PaperWithLinks { base: BasePaper { info, ..BasePaper::default() }, ..PaperWithLinks::default() }
}

#[test]
fn authors_convert_to_their_parts() {
    let with_papers = author("Ada");
    assert_eq!(AuthorInfo::from(author("Ada")).name, Some("Ada".to_string()));
    assert_eq!(Author::from(author("Ada")), with_papers.author);
    assert_eq!(AuthorInfo::from(Author::from(with_papers)).author_id, Some("1".to_string()));
    let ids = AuthorExternalId::new(
        Some(HashSet::from(["a/Ada".to_string()])),
        Some("0000-0001".to_string()),
    );
    assert_eq!(ids.orcid(), &Some("0000-0001".to_string()));
    assert_eq!(ids.dblp().as_ref().map(|ids| ids.len()), Some(1));
    assert_eq!(Tldr::default(), Tldr { model: None, text: None });
}

#[test]
fn papers_convert_to_their_parts() {
    assert_eq!(PaperInfo::from(paper("On X")).title, Some("On X".to_string()));
    assert_eq!(BasePaper::from(paper("On X")), paper("On X").base);
    assert_eq!(PaperInfo::from(BasePaper::from(paper("On X"))).title, Some("On X".to_string()));
}

#[test]
fn author_batches() {
    let mut batch = AuthorBatch::default();
    assert_eq!((batch.offset(), batch.get_next(), batch.len()), (0, None, 0));
    batch.set_next(Some(10));
    batch.as_mut().push(author("Ada"));
    assert_eq!((batch.get_next(), batch.len()), (Some(10), 1));
    assert_eq!(batch.as_ref()[0], author("Ada"));
    assert_eq!(Vec::from(batch), vec![author("Ada")]);

    let found =
        AuthorSearchBatch(SearchBatch::new(Batch::new(20, Some(30), vec![author("Bob")]), 99));
    assert_eq!((found.total(), found.offset(), found.get_next(), found.len()), (99, 20, Some(30), 1));
    assert_eq!(Vec::from(found), vec![author("Bob")]);
    let mut none = AuthorSearchBatch::default();
    assert_eq!((none.total(), none.len()), (0, 0));
    none.set_next(Some(1));
    none.as_mut().push(author("Eve"));
    assert_eq!((none.get_next(), none.as_ref().len()), (Some(1), 1));
}

#[test]
fn citation_and_reference_batches() {
    let mut citations = CitationBatch(Batch::new(5, None, vec![Citation::default()]));
    assert_eq!((citations.offset(), citations.get_next(), citations.len()), (5, None, 1));
    citations.set_next(Some(6));
    citations.as_mut().pop();
    assert_eq!((citations.get_next(), citations.as_ref().len()), (Some(6), 0));
    assert_eq!(Vec::from(CitationBatch::default()), vec![]);

    let mut references = ReferenceBatch(Batch::new(7, Some(9), vec![Reference::default()]));
    assert_eq!((references.offset(), references.get_next(), references.len()), (7, Some(9), 1));
    references.set_next(None);
    references.as_mut().push(Reference::default());
    assert_eq!((references.get_next(), references.as_ref().len()), (None, 2));
    assert_eq!(Vec::from(references).len(), 2);
    assert_eq!(ReferenceBatch::default().len(), 0);
}

#[test]
fn paper_batches() {
    let batch = PaperBatch(Batch::new(40, Some(50), vec![paper("A"), paper("B")]));
    assert_eq!((batch.get_offset(), batch.get_next()), (40, Some(50)));
    assert_eq!(batch.as_ref().len(), 2);
    assert_eq!(Vec::from(batch), vec![paper("A"), paper("B")]);
    let none: PaperBatch<PaperWithLinks> = PaperBatch::default();
    assert_eq!((none.get_offset(), none.get_next(), none.as_ref().len()), (0, None, 0));

    let found = PaperSearchBatch(SearchBatch::new(Batch::new(0, None, vec![1u8, 2]), 2));
    assert_eq!((found.get_offset(), found.get_next(), found.get_total()), (0, None, 2));
    assert_eq!(found.as_ref(), &vec![1, 2]);
    assert_eq!(Vec::from(found), vec![1, 2]);
    let none: PaperSearchBatch<u8> = PaperSearchBatch::default();
    assert_eq!((none.get_offset(), none.get_next(), none.get_total()), (0, None, 0));
}
