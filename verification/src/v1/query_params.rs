//! The parameters of the requests.
//!
//! Every set of parameters is written into a query string as pairs of a
//! name and a value: `offset` and `limit` for the page of a paged request,
//! `fields` for the fields asked for, joined by commas, and `query` for
//! the text of a search.

use vstd::prelude::*;
use crate::serialize::{as_non_empty_string, non_empty};
use crate::text::{decimal, decimal_string};
use crate::urlencoded::{lemma_with_pairs_concat, query_text, with_pairs, QueryParams, UrlEncodedQuery};
use crate::v1::pagination::{Page, Paged};
use crate::v1::parameter::author::AuthorWithPapersField;
use crate::v1::parameter::paper::{BasePaperField, FullPaperField, PaperField, PaperWithLinksField};
use crate::v1::parameter::Field;

verus! {

/// The items of `items` without those that stand earlier in it already.
pub open spec fn distinct<F>(items: Seq<F>) -> Seq<F>
    decreases items.len(),
{
    if items.len() == 0 {
        items
    } else if distinct(items.drop_last()).contains(items.last()) {
        distinct(items.drop_last())
    } else {
        distinct(items.drop_last()).push(items.last())
    }
}

/// The names of `fields`, with a comma between one and the next.
pub open spec fn joined<F: Field>(fields: Seq<F>) -> Seq<char>
    decreases fields.len(),
{
    if fields.len() == 0 {
        Seq::empty()
    } else if fields.len() == 1 {
        fields[0].name()
    } else {
        joined(fields.drop_last()) + seq![','] + fields.last().name()
    }
}

/// The pairs that a page is written as.
pub open spec fn page_pairs(page: Page) -> Seq<(Seq<char>, Seq<char>)> {
    seq![
        ("offset"@, decimal(page.offset() as nat)),
        ("limit"@, decimal(page.limit() as nat)),
    ]
}

impl QueryParams for Page {
    open spec fn pairs(&self) -> Seq<(Seq<char>, Seq<char>)> {
        page_pairs(*self)
    }

    fn append_to(&self, query: &mut UrlEncodedQuery) {
        let ghost start = query_text(*query);
        query.append_pair("offset", decimal_string(self.get_offset()).as_str());
        query.append_pair("limit", decimal_string(self.get_limit()).as_str());
        proof {
            let pairs = page_pairs(*self);
            reveal_with_fuel(with_pairs, 3);
            assert(pairs.drop_last() =~= seq![("offset"@, decimal(self.offset() as nat))]);
            assert(pairs.drop_last().drop_last() =~= Seq::empty());
        }
    }
}

/// The fields that a request asks for: each at most once. Without fields
/// the service returns those it returns by default.
///
/// The fields are kept in the order in which they were given, so that the
/// same parameters always make the same query string; the service itself
/// does not care for the order.
#[derive(Clone, Debug, PartialEq, Eq)]
pub struct FieldsParam<F> {
    fields: Option<Vec<F>>,
}

impl<F: Field + Copy> FieldsParam<F> {
    /// The fields that are asked for, in the order in which they are
    /// written.
    pub closed spec fn fields(&self) -> Option<Seq<F>> {
        match self.fields {
            Some(fields) => Some(fields@),
            None => None,
        }
    }

    /// The fields of `fields`, each once, in the order in which they come
    /// first.
    pub fn new(fields: Option<Vec<F>>) -> (res: FieldsParam<F>)
        ensures
            res.fields() == match fields {
                Some(fields) => Some(distinct(fields@)),
                None => None,
            },
    {
        match fields {
            None => FieldsParam { fields: None },
            Some(fields) => {
                let mut kept: Vec<F> = Vec::new();
                let mut i: usize = 0;
                while i < fields.len()
                    invariant
                        i <= fields@.len(),
                        kept@ == distinct(fields@.subrange(0, i as int)),
                    decreases fields@.len() - i,
                {
                    let field = fields[i];
                    let mut found = false;
                    let mut j: usize = 0;
                    while j < kept.len()
                        invariant
                            j <= kept@.len(),
                            found == kept@.subrange(0, j as int).contains(field),
                        decreases kept@.len() - j,
                    {
                        let ghost seen = kept@.subrange(0, j as int);
                        let same = kept[j].same(&field);
                        proof {
                            let more = kept@.subrange(0, j + 1);
                            assert(more =~= seen.push(kept@[j as int]));
                            if same {
                                assert(more[j as int] == field);
                            } else if found {
                                let k = choose|k: int| 0 <= k < seen.len() && seen[k] == field;
                                assert(more[k] == field);
                            } else if more.contains(field) {
                                let k = choose|k: int| 0 <= k < more.len() && more[k] == field;
                                assert(seen[k] == field);
                            }
                        }
                        if same {
                            found = true;
                        }
                        j = j + 1;
                    }
                    proof {
                        assert(kept@.subrange(0, j as int) =~= kept@);
                        assert(fields@.subrange(0, i + 1).drop_last() =~= fields@.subrange(
                            0,
                            i as int,
                        ));
                    }
                    if !found {
                        kept.push(field);
                    }
                    i = i + 1;
                }
                assert(fields@.subrange(0, i as int) =~= fields@);
                FieldsParam { fields: Some(kept) }
            },
        }
    }

    /// The names of the fields, joined by commas, if any are asked for.
    pub fn to_string(&self) -> (text: Option<String>)
        ensures
            text is Some <==> self.fields() is Some,
            text is Some ==> text->Some_0@ == joined(self.fields()->Some_0),
    {
        match &self.fields {
            None => None,
            Some(fields) => {
                let mut text = String::new();
                let mut i: usize = 0;
                while i < fields.len()
                    invariant
                        i <= fields@.len(),
                        text@ == joined(fields@.subrange(0, i as int)),
                    decreases fields@.len() - i,
                {
                    let ghost before = fields@.subrange(0, i as int);
                    if i > 0 {
                        proof {
                            reveal_strlit(",");
                        }
                        text = text.concat(",");
                    }
                    text = text.concat(fields[i].to_string().as_str());
                    proof {
                        let more = fields@.subrange(0, i + 1);
                        assert(more.drop_last() =~= before);
                        assert(more.last() == fields@[i as int]);
                        if i > 0 {
                            assert(text@ =~= joined(before) + seq![','] + fields@[i as int].name());
                        } else {
                            assert(text@ =~= fields@[i as int].name());
                        }
                    }
                    i = i + 1;
                }
                assert(fields@.subrange(0, i as int) =~= fields@);
                Some(text)
            },
        }
    }
}

impl<F: Field + Copy> QueryParams for FieldsParam<F> {
    open spec fn pairs(&self) -> Seq<(Seq<char>, Seq<char>)> {
        match self.fields() {
            Some(fields) => seq![("fields"@, joined(fields))],
            None => Seq::empty(),
        }
    }

    fn append_to(&self, query: &mut UrlEncodedQuery) {
        let ghost start = query_text(*query);
        match self.to_string() {
            Some(fields) => {
                query.append_pair("fields", fields.as_str());
                proof {
                    assert(self.pairs().drop_last() =~= Seq::empty());
                    assert(with_pairs(start, self.pairs().drop_last()) == start);
                }
            },
            None => {},
        }
    }
}

/// The parameters of a search: the text to search for and the fields
/// asked for.
#[derive(Clone, Debug, PartialEq, Eq)]
pub struct SearchParams<F> {
    fields: FieldsParam<F>,
    query: String,
}

impl<F: Field + Copy> SearchParams<F> {
    /// The fields that are asked for.
    pub closed spec fn fields(&self) -> Option<Seq<F>> {
        self.fields.fields()
    }

    /// The text to search for, as it was given.
    pub closed spec fn query(&self) -> Seq<char> {
        self.query@
    }

    /// A search for `query` that asks for `fields`, each once.
    pub fn new(query: String, fields: Option<Vec<F>>) -> (res: SearchParams<F>)
        ensures
            res.query() == query@,
            res.fields() == match fields {
                Some(fields) => Some(distinct(fields@)),
                None => None,
            },
    {
        let fields = FieldsParam::new(fields);
        SearchParams { fields, query }
    }
}

impl<F: Field + Copy> QueryParams for SearchParams<F> {
    /// The text of the search is written without the white space around
    /// it, and as a single blank where nothing else is left.
    open spec fn pairs(&self) -> Seq<(Seq<char>, Seq<char>)> {
        (match self.fields() {
            Some(fields) => seq![("fields"@, joined(fields))],
            None => Seq::empty(),
        }) + seq![("query"@, non_empty(self.query()))]
    }

    fn append_to(&self, query: &mut UrlEncodedQuery) {
        let ghost start = query_text(*query);
        self.fields.append_to(query);
        let ghost middle = query_text(*query);
        query.append_pair("query", as_non_empty_string(self.query.as_str()).as_str());
        proof {
            let last = seq![("query"@, non_empty(self.query()))];
            assert(last.drop_last() =~= Seq::empty());
            assert(with_pairs(middle, last.drop_last()) == middle);
            lemma_with_pairs_concat(start, self.fields.pairs(), last);
        }
    }
}

/// Parameters of a paged request: a page and the parameters beside it.
#[derive(Clone, Debug, PartialEq, Eq)]
struct PagedParams<T> {
    page: Page,
    params: T,
}

impl<T: QueryParams> QueryParams for PagedParams<T> {
    closed spec fn pairs(&self) -> Seq<(Seq<char>, Seq<char>)> {
        page_pairs(self.page) + self.params.pairs()
    }

    fn append_to(&self, query: &mut UrlEncodedQuery) {
        let ghost start = query_text(*query);
        self.page.append_to(query);
        self.params.append_to(query);
        proof {
            lemma_with_pairs_concat(start, page_pairs(self.page), self.params.pairs());
        }
    }
}

/// The parameters of a request for a paper.
#[derive(Clone, Debug, PartialEq, Eq)]
pub struct PaperParams(FieldsParam<FullPaperField>);

impl PaperParams {
    /// The fields that are asked for.
    pub closed spec fn fields(&self) -> Option<Seq<FullPaperField>> {
        self.0.fields()
    }

    /// Parameters that ask for `fields`, each once.
    pub fn new(fields: Option<Vec<FullPaperField>>) -> (res: PaperParams)
        ensures
            res.fields() == match fields {
                Some(fields) => Some(distinct(fields@)),
                None => None,
            },
    {
        PaperParams(FieldsParam::new(fields))
    }
}

impl QueryParams for PaperParams {
    open spec fn pairs(&self) -> Seq<(Seq<char>, Seq<char>)> {
        match self.fields() {
            Some(fields) => seq![("fields"@, joined(fields))],
            None => Seq::empty(),
        }
    }

    fn append_to(&self, query: &mut UrlEncodedQuery) {
        self.0.append_to(query)
    }
}

/// The parameters of a request for an author.
#[derive(Clone, Debug, PartialEq, Eq)]
pub struct AuthorParams(FieldsParam<AuthorWithPapersField>);

impl AuthorParams {
    /// The fields that are asked for.
    pub closed spec fn fields(&self) -> Option<Seq<AuthorWithPapersField>> {
        self.0.fields()
    }

    /// Parameters that ask for `fields`, each once.
    pub fn new(fields: Option<Vec<AuthorWithPapersField>>) -> (res: AuthorParams)
        ensures
            res.fields() == match fields {
                Some(fields) => Some(distinct(fields@)),
                None => None,
            },
    {
        AuthorParams(FieldsParam::new(fields))
    }
}

impl QueryParams for AuthorParams {
    open spec fn pairs(&self) -> Seq<(Seq<char>, Seq<char>)> {
        match self.fields() {
            Some(fields) => seq![("fields"@, joined(fields))],
            None => Seq::empty(),
        }
    }

    fn append_to(&self, query: &mut UrlEncodedQuery) {
        self.0.append_to(query)
    }
}

/// The parameters of a request for the papers of an author.
#[derive(Clone, Debug, PartialEq, Eq)]
pub struct AuthorPapersParams(PagedParams<FieldsParam<PaperWithLinksField>>);

impl AuthorPapersParams {
    /// The fields that are asked for.
    pub closed spec fn fields(&self) -> Option<Seq<PaperWithLinksField>> {
        self.0.params.fields()
    }

    /// Parameters that ask for `fields`, each once, of the results in
    /// `page`.
    pub fn new(fields: Option<Vec<PaperWithLinksField>>, page: Page) -> (res: AuthorPapersParams)
        ensures
            res.page() == page,
            res.fields() == match fields {
                Some(fields) => Some(distinct(fields@)),
                None => None,
            },
    {
        let params = FieldsParam::new(fields);
        AuthorPapersParams(PagedParams { params, page })
    }
}

impl QueryParams for AuthorPapersParams {
    open spec fn pairs(&self) -> Seq<(Seq<char>, Seq<char>)> {
        page_pairs(self.page()) + match self.fields() {
            Some(fields) => seq![("fields"@, joined(fields))],
            None => Seq::empty(),
        }
    }

    fn append_to(&self, query: &mut UrlEncodedQuery) {
        self.0.append_to(query)
    }
}

impl Paged for AuthorPapersParams {
    closed spec fn page(&self) -> Page {
        self.0.page
    }

    closed spec fn beside_page(&self) -> Self {
        AuthorPapersParams(PagedParams { page: arbitrary(), params: self.0.params })
    }

    fn get_page(&self) -> (page: &Page) {
        &self.0.page
    }

    fn get_page_mut(&mut self) -> (page: &mut Page) {
        &mut self.0.page
    }
}

/// The parameters of a request for the authors of a paper.
#[derive(Clone, Debug, PartialEq, Eq)]
pub struct PaperAuthorsParams(PagedParams<FieldsParam<AuthorWithPapersField>>);

impl PaperAuthorsParams {
    /// The fields that are asked for.
    pub closed spec fn fields(&self) -> Option<Seq<AuthorWithPapersField>> {
        self.0.params.fields()
    }

    /// Parameters that ask for `fields`, each once, of the results in
    /// `page`.
    pub fn new(fields: Option<Vec<AuthorWithPapersField>>, page: Page) -> (res: PaperAuthorsParams)
        ensures
            res.page() == page,
            res.fields() == match fields {
                Some(fields) => Some(distinct(fields@)),
                None => None,
            },
    {
        let params = FieldsParam::new(fields);
        PaperAuthorsParams(PagedParams { params, page })
    }
}

impl QueryParams for PaperAuthorsParams {
    open spec fn pairs(&self) -> Seq<(Seq<char>, Seq<char>)> {
        page_pairs(self.page()) + match self.fields() {
            Some(fields) => seq![("fields"@, joined(fields))],
            None => Seq::empty(),
        }
    }

    fn append_to(&self, query: &mut UrlEncodedQuery) {
        self.0.append_to(query)
    }
}

impl Paged for PaperAuthorsParams {
    closed spec fn page(&self) -> Page {
        self.0.page
    }

    closed spec fn beside_page(&self) -> Self {
        PaperAuthorsParams(PagedParams { page: arbitrary(), params: self.0.params })
    }

    fn get_page(&self) -> (page: &Page) {
        &self.0.page
    }

    fn get_page_mut(&mut self) -> (page: &mut Page) {
        &mut self.0.page
    }
}

/// The parameters of a request for the citations of a paper.
#[derive(Clone, Debug, PartialEq, Eq)]
pub struct PaperCitationsParams(PagedParams<FieldsParam<PaperField>>);

impl PaperCitationsParams {
    /// The fields that are asked for.
    pub closed spec fn fields(&self) -> Option<Seq<PaperField>> {
        self.0.params.fields()
    }

    /// Parameters that ask for `fields`, each once, of the results in
    /// `page`.
    pub fn new(fields: Option<Vec<PaperField>>, page: Page) -> (res: PaperCitationsParams)
        ensures
            res.page() == page,
            res.fields() == match fields {
                Some(fields) => Some(distinct(fields@)),
                None => None,
            },
    {
        let params = FieldsParam::new(fields);
        PaperCitationsParams(PagedParams { params, page })
    }
}

impl QueryParams for PaperCitationsParams {
    open spec fn pairs(&self) -> Seq<(Seq<char>, Seq<char>)> {
        page_pairs(self.page()) + match self.fields() {
            Some(fields) => seq![("fields"@, joined(fields))],
            None => Seq::empty(),
        }
    }

    fn append_to(&self, query: &mut UrlEncodedQuery) {
        self.0.append_to(query)
    }
}

impl Paged for PaperCitationsParams {
    closed spec fn page(&self) -> Page {
        self.0.page
    }

    closed spec fn beside_page(&self) -> Self {
        PaperCitationsParams(PagedParams { page: arbitrary(), params: self.0.params })
    }

    fn get_page(&self) -> (page: &Page) {
        &self.0.page
    }

    fn get_page_mut(&mut self) -> (page: &mut Page) {
        &mut self.0.page
    }
}

/// The parameters of a request for the references of a paper.
#[derive(Clone, Debug, PartialEq, Eq)]
pub struct PaperReferencesParams(PagedParams<FieldsParam<PaperField>>);

impl PaperReferencesParams {
    /// The fields that are asked for.
    pub closed spec fn fields(&self) -> Option<Seq<PaperField>> {
        self.0.params.fields()
    }

    /// Parameters that ask for `fields`, each once, of the results in
    /// `page`.
    pub fn new(fields: Option<Vec<PaperField>>, page: Page) -> (res: PaperReferencesParams)
        ensures
            res.page() == page,
            res.fields() == match fields {
                Some(fields) => Some(distinct(fields@)),
                None => None,
            },
    {
        let params = FieldsParam::new(fields);
        PaperReferencesParams(PagedParams { params, page })
    }
}

impl QueryParams for PaperReferencesParams {
    open spec fn pairs(&self) -> Seq<(Seq<char>, Seq<char>)> {
        page_pairs(self.page()) + match self.fields() {
            Some(fields) => seq![("fields"@, joined(fields))],
            None => Seq::empty(),
        }
    }

    fn append_to(&self, query: &mut UrlEncodedQuery) {
        self.0.append_to(query)
    }
}

impl Paged for PaperReferencesParams {
    closed spec fn page(&self) -> Page {
        self.0.page
    }

    closed spec fn beside_page(&self) -> Self {
        PaperReferencesParams(PagedParams { page: arbitrary(), params: self.0.params })
    }

    fn get_page(&self) -> (page: &Page) {
        &self.0.page
    }

    fn get_page_mut(&mut self) -> (page: &mut Page) {
        &mut self.0.page
    }
}

/// The parameters of a search for papers.
#[derive(Clone, Debug, PartialEq, Eq)]
pub struct PaperSearchParams(PagedParams<SearchParams<BasePaperField>>);

impl PaperSearchParams {
    /// The fields that are asked for.
    pub closed spec fn fields(&self) -> Option<Seq<BasePaperField>> {
        self.0.params.fields()
    }

    /// The text to search for, as it was given.
    pub closed spec fn query(&self) -> Seq<char> {
        self.0.params.query()
    }

    /// A search for `query` that asks for `fields`, each once, of the
    /// results in `page`.
    pub fn new(query: String, fields: Option<Vec<BasePaperField>>, page: Page) -> (res: PaperSearchParams)
        ensures
            res.page() == page,
            res.query() == query@,
            res.fields() == match fields {
                Some(fields) => Some(distinct(fields@)),
                None => None,
            },
    {
        let params = SearchParams::new(query, fields);
        PaperSearchParams(PagedParams { params, page })
    }
}

impl QueryParams for PaperSearchParams {
    open spec fn pairs(&self) -> Seq<(Seq<char>, Seq<char>)> {
        page_pairs(self.page()) + (match self.fields() {
            Some(fields) => seq![("fields"@, joined(fields))],
            None => Seq::empty(),
        }) + seq![("query"@, non_empty(self.query()))]
    }

    fn append_to(&self, query: &mut UrlEncodedQuery) {
        proof {
            assert(self.pairs() =~= self.0.pairs());
        }
        self.0.append_to(query)
    }
}

impl Paged for PaperSearchParams {
    closed spec fn page(&self) -> Page {
        self.0.page
    }

    closed spec fn beside_page(&self) -> Self {
        PaperSearchParams(PagedParams { page: arbitrary(), params: self.0.params })
    }

    fn get_page(&self) -> (page: &Page) {
        &self.0.page
    }

    fn get_page_mut(&mut self) -> (page: &mut Page) {
        &mut self.0.page
    }
}

/// The parameters of a search for authors.
#[derive(Clone, Debug, PartialEq, Eq)]
pub struct AuthorSearchParams(PagedParams<SearchParams<AuthorWithPapersField>>);

impl AuthorSearchParams {
    /// The fields that are asked for.
    pub closed spec fn fields(&self) -> Option<Seq<AuthorWithPapersField>> {
        self.0.params.fields()
    }

    /// The text to search for, as it was given.
    pub closed spec fn query(&self) -> Seq<char> {
        self.0.params.query()
    }

    /// A search for `query` that asks for `fields`, each once, of the
    /// results in `page`.
    pub fn new(query: String, fields: Option<Vec<AuthorWithPapersField>>, page: Page) -> (res: AuthorSearchParams)
        ensures
            res.page() == page,
            res.query() == query@,
            res.fields() == match fields {
                Some(fields) => Some(distinct(fields@)),
                None => None,
            },
    {
        let params = SearchParams::new(query, fields);
        AuthorSearchParams(PagedParams { params, page })
    }
}

impl QueryParams for AuthorSearchParams {
    open spec fn pairs(&self) -> Seq<(Seq<char>, Seq<char>)> {
        page_pairs(self.page()) + (match self.fields() {
            Some(fields) => seq![("fields"@, joined(fields))],
            None => Seq::empty(),
        }) + seq![("query"@, non_empty(self.query()))]
    }

    fn append_to(&self, query: &mut UrlEncodedQuery) {
        proof {
            assert(self.pairs() =~= self.0.pairs());
        }
        self.0.append_to(query)
    }
}

impl Paged for AuthorSearchParams {
    closed spec fn page(&self) -> Page {
        self.0.page
    }

    closed spec fn beside_page(&self) -> Self {
        AuthorSearchParams(PagedParams { page: arbitrary(), params: self.0.params })
    }

    fn get_page(&self) -> (page: &Page) {
        &self.0.page
    }

    fn get_page_mut(&mut self) -> (page: &mut Page) {
        &mut self.0.page
    }
}

} // verus!
