//! The URLs of the endpoints.

use vstd::prelude::*;

verus! {

/// The URL under which version 1 of the service answers.
pub open spec fn base_url() -> Seq<char> {
    "https://api.semanticscholar.org/graph/v1/"@
}

fn api_base_url_v1() -> (url: String)
    ensures
        url@ == base_url(),
{
    String::from_str("https://api.semanticscholar.org/graph/v1/")
}

/// The URL of the search for papers.
pub fn paper_search_endpoint() -> (url: String)
    ensures
        url@ == base_url() + "paper/search"@,
{
    api_base_url_v1().concat("paper/search")
}

/// The URL of the paper with the id `paper_id`.
pub fn paper_endpoint(paper_id: &str) -> (url: String)
    ensures
        url@ == base_url() + "paper/"@ + paper_id@,
{
    api_base_url_v1().concat("paper/").concat(paper_id)
}

/// The URL of the authors of the paper with the id `paper_id`.
pub fn paper_authors_endpoint(paper_id: &str) -> (url: String)
    ensures
        url@ == base_url() + "paper/"@ + paper_id@ + "/authors"@,
{
    paper_endpoint(paper_id).concat("/authors")
}

/// The URL of the references of the paper with the id `paper_id`.
pub fn paper_references_endpoint(paper_id: &str) -> (url: String)
    ensures
        url@ == base_url() + "paper/"@ + paper_id@ + "/references"@,
{
    paper_endpoint(paper_id).concat("/references")
}

/// The URL of the citations of the paper with the id `paper_id`.
pub fn paper_citations_endpoint(paper_id: &str) -> (url: String)
    ensures
        url@ == base_url() + "paper/"@ + paper_id@ + "/citations"@,
{
    paper_endpoint(paper_id).concat("/citations")
}

/// The URL of the search for authors.
pub fn author_search_endpoint() -> (url: String)
    ensures
        url@ == base_url() + "author/search"@,
{
    api_base_url_v1().concat("author/search")
}

/// The URL of the author with the id `author_id`.
pub fn author_endpoint(author_id: &str) -> (url: String)
    ensures
        url@ == base_url() + "author/"@ + author_id@,
{
    api_base_url_v1().concat("author/").concat(author_id)
}

/// The URL of the papers of the author with the id `author_id`.
pub fn author_papers_endpoint(author_id: &str) -> (url: String)
    ensures
        url@ == base_url() + "author/"@ + author_id@ + "/papers"@,
{
    author_endpoint(author_id).concat("/papers")
}

} // verus!
