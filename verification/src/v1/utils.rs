//! The lists of all fields that a request can ask for.

use vstd::prelude::*;
use vstd::std_specs::convert::FromSpec;
use super::parameter::author::{AuthorField, AuthorInfoField, AuthorWithPapersField};
use super::parameter::paper::{
    BasePaperField,
    FullPaperField,
    PaperField,
    PaperInfoField,
    PaperWithLinksField,
};

verus! {

/// Every [`AuthorInfoField`].
pub open spec fn author_info_fields() -> Seq<AuthorInfoField> {
    seq![AuthorInfoField::AuthorId, AuthorInfoField::Name]
}

/// Every [`AuthorField`] that is no [`AuthorInfoField`].
pub open spec fn exclusive_author_fields() -> Seq<AuthorField> {
    seq![
        AuthorField::ExternalIds,
        AuthorField::Url,
        AuthorField::Aliases,
        AuthorField::Affiliations,
        AuthorField::Homepage,
        AuthorField::PaperCount,
        AuthorField::CitationCount,
        AuthorField::HIndex,
    ]
}

/// Every [`AuthorField`].
pub open spec fn author_fields() -> Seq<AuthorField> {
    author_info_fields().map_values(|field: AuthorInfoField| AuthorField::Info(field))
        + exclusive_author_fields()
}

/// Every [`PaperInfoField`].
pub open spec fn paper_info_fields() -> Seq<PaperInfoField> {
    seq![
        PaperInfoField::PaperId,
        PaperInfoField::Url,
        PaperInfoField::Title,
        PaperInfoField::Venue,
        PaperInfoField::Year,
        PaperInfoField::Authors,
    ]
}

/// Every [`BasePaperField`] that is no [`PaperInfoField`].
pub open spec fn exclusive_base_paper_fields() -> Seq<BasePaperField> {
    seq![
        BasePaperField::ExternalIds,
        BasePaperField::Abstract,
        BasePaperField::ReferenceCount,
        BasePaperField::CitationCount,
        BasePaperField::InfluentialCitationCount,
        BasePaperField::IsOpenAccess,
        BasePaperField::FieldsOfStudy,
    ]
}

/// Every [`BasePaperField`].
pub open spec fn base_paper_fields() -> Seq<BasePaperField> {
    exclusive_base_paper_fields() + paper_info_fields().map_values(
        |field: PaperInfoField| BasePaperField::Info(field),
    )
}

/// Every [`PaperField`] that is no [`BasePaperField`].
pub open spec fn exclusive_paper_fields() -> Seq<PaperField> {
    seq![PaperField::Contexts, PaperField::Intents, PaperField::IsInfluential]
}

/// The fields of a citation or a reference with `fields` of its paper.
pub open spec fn paper_fields_of(fields: Seq<BasePaperField>) -> Seq<PaperField> {
    exclusive_paper_fields() + fields.map_values(|field: BasePaperField| PaperField::Base(field))
}

/// Every [`PaperField`].
pub open spec fn paper_fields() -> Seq<PaperField> {
    paper_fields_of(base_paper_fields())
}

/// The fields of an author with `fields` of the author's papers.
pub open spec fn author_with_papers_fields_of(fields: Seq<BasePaperField>) -> Seq<
    AuthorWithPapersField,
> {
    author_fields().map_values(|field: AuthorField| AuthorWithPapersField::Author(field))
        + fields.map_values(|field: BasePaperField| AuthorWithPapersField::Papers(Some(field)))
}

/// Every [`AuthorWithPapersField`] but the papers as a whole.
pub open spec fn author_with_papers_fields() -> Seq<AuthorWithPapersField> {
    author_with_papers_fields_of(base_paper_fields())
}

/// Every [`PaperWithLinksField`] but the authors, citations and references
/// as a whole.
pub open spec fn paper_with_links_fields() -> Seq<PaperWithLinksField> {
    base_paper_fields().map_values(|field: BasePaperField| PaperWithLinksField::Base(field))
        + author_info_fields().map_values(
        |field: AuthorInfoField| PaperWithLinksField::Authors(Some(field)),
    ) + paper_info_fields().map_values(
        |field: PaperInfoField| PaperWithLinksField::References(Some(field)),
    ) + paper_info_fields().map_values(
        |field: PaperInfoField| PaperWithLinksField::Citations(Some(field)),
    )
}

/// Every [`FullPaperField`] that stands for no field of a part of the
/// paper.
pub open spec fn exclusive_full_paper_fields() -> Seq<FullPaperField> {
    seq![FullPaperField::Embedding, FullPaperField::Tldr]
}

/// Every [`FullPaperField`] but the authors, citations and references as a
/// whole.
pub open spec fn full_paper_fields() -> Seq<FullPaperField> {
    exclusive_full_paper_fields() + author_fields().map_values(
        |field: AuthorField| FullPaperField::Authors(Some(field)),
    ) + base_paper_fields().map_values(|field: BasePaperField| FullPaperField::Base(field))
        + paper_info_fields().map_values(
        |field: PaperInfoField| FullPaperField::Citations(Some(field)),
    ) + paper_info_fields().map_values(
        |field: PaperInfoField| FullPaperField::References(Some(field)),
    )
}

/// Appends to `out` what `From` makes of each of `items`, in their order.
fn extend_from<A: Copy, B: From<A>>(out: &mut Vec<B>, items: &Vec<A>)
    requires
        <B as FromSpec<A>>::obeys_from_spec(),
    ensures
        final(out)@ == old(out)@ + items@.map_values(|item: A| <B as FromSpec<A>>::from_spec(item)),
{
    let ghost start = out@;
    let mut i: usize = 0;
    while i < items.len()
        invariant
            i <= items@.len(),
            <B as FromSpec<A>>::obeys_from_spec(),
            out@ == start + items@.subrange(0, i as int).map_values(
                |item: A| <B as FromSpec<A>>::from_spec(item),
            ),
        decreases items@.len() - i,
    {
        let ghost before = out@;
        out.push(B::from(items[i]));
        proof {
            let made = |item: A| <B as FromSpec<A>>::from_spec(item);
            assert(items@.subrange(0, i + 1) =~= items@.subrange(0, i as int).push(items@[i as int]));
            assert(items@.subrange(0, i + 1).map_values(made) =~= items@.subrange(
                0,
                i as int,
            ).map_values(made).push(made(items@[i as int])));
            assert(out@ =~= start + items@.subrange(0, i + 1).map_values(made));
        }
        i = i + 1;
    }
    assert(items@.subrange(0, i as int) =~= items@);
}

/// Appends to `out` what `make` gives for each of `items`, in their order.
fn extend_with<A: Copy, B, F: Fn(A) -> B>(
    out: &mut Vec<B>,
    items: &Vec<A>,
    make: F,
    Ghost(made): Ghost<spec_fn(A) -> B>,
)
    requires
        forall|item: A| call_requires(make, (item,)),
        forall|item: A, res: B| call_ensures(make, (item,), res) ==> res == made(item),
    ensures
        final(out)@ == old(out)@ + items@.map_values(made),
{
    let ghost start = out@;
    let mut i: usize = 0;
    while i < items.len()
        invariant
            i <= items@.len(),
            forall|item: A| call_requires(make, (item,)),
            forall|item: A, res: B| call_ensures(make, (item,), res) ==> res == made(item),
            out@ == start + items@.subrange(0, i as int).map_values(made),
        decreases items@.len() - i,
    {
        out.push(make(items[i]));
        proof {
            assert(items@.subrange(0, i + 1) =~= items@.subrange(0, i as int).push(items@[i as int]));
            assert(items@.subrange(0, i + 1).map_values(made) =~= items@.subrange(
                0,
                i as int,
            ).map_values(made).push(made(items@[i as int])));
            assert(out@ =~= start + items@.subrange(0, i + 1).map_values(made));
        }
        i = i + 1;
    }
    assert(items@.subrange(0, i as int) =~= items@);
}

/// Every [`AuthorInfoField`].
pub fn all_author_info_fields() -> (fields: Vec<AuthorInfoField>)
    ensures
        fields@ == author_info_fields(),
{
    let fields = vec![AuthorInfoField::AuthorId, AuthorInfoField::Name];
    assert(fields@ =~= author_info_fields());
    fields
}

/// Every [`AuthorField`].
pub fn all_author_fields() -> (fields: Vec<AuthorField>)
    ensures
        fields@ == author_fields(),
{
    let mut fields: Vec<AuthorField> = Vec::new();
    extend_from(&mut fields, &all_author_info_fields());
    let mut exclusive = all_exclusive_author_fields();
    fields.append(&mut exclusive);
    assert(fields@ =~= author_fields());
    fields
}

fn all_exclusive_author_fields() -> (fields: Vec<AuthorField>)
    ensures
        fields@ == exclusive_author_fields(),
{
    let fields = vec![
        AuthorField::ExternalIds,
        AuthorField::Url,
        AuthorField::Aliases,
        AuthorField::Affiliations,
        AuthorField::Homepage,
        AuthorField::PaperCount,
        AuthorField::CitationCount,
        AuthorField::HIndex,
    ];
    assert(fields@ =~= exclusive_author_fields());
    fields
}

/// Every [`PaperInfoField`].
pub fn all_paper_info_fields() -> (fields: Vec<PaperInfoField>)
    ensures
        fields@ == paper_info_fields(),
{
    let fields = vec![
        PaperInfoField::PaperId,
        PaperInfoField::Url,
        PaperInfoField::Title,
        PaperInfoField::Venue,
        PaperInfoField::Year,
        PaperInfoField::Authors,
    ];
    assert(fields@ =~= paper_info_fields());
    fields
}

fn all_exclusive_base_paper_fields() -> (fields: Vec<BasePaperField>)
    ensures
        fields@ == exclusive_base_paper_fields(),
{
    let fields = vec![
        BasePaperField::ExternalIds,
        BasePaperField::Abstract,
        BasePaperField::ReferenceCount,
        BasePaperField::CitationCount,
        BasePaperField::InfluentialCitationCount,
        BasePaperField::IsOpenAccess,
        BasePaperField::FieldsOfStudy,
    ];
    assert(fields@ =~= exclusive_base_paper_fields());
    fields
}

/// Every [`BasePaperField`].
pub fn all_base_paper_fields() -> (fields: Vec<BasePaperField>)
    ensures
        fields@ == base_paper_fields(),
{
    let mut fields = all_exclusive_base_paper_fields();
    extend_from(&mut fields, &all_paper_info_fields());
    assert(fields@ =~= base_paper_fields());
    fields
}

fn all_exclusive_paper_fields() -> (fields: Vec<PaperField>)
    ensures
        fields@ == exclusive_paper_fields(),
{
    let fields = vec![PaperField::Contexts, PaperField::Intents, PaperField::IsInfluential];
    assert(fields@ =~= exclusive_paper_fields());
    fields
}

/// Every [`PaperField`].
pub fn all_paper_fields() -> (fields: Vec<PaperField>)
    ensures
        fields@ == paper_fields(),
{
    paper_fields_with(all_base_paper_fields())
}

/// Every [`AuthorWithPapersField`] but the papers as a whole.
pub fn all_author_with_papers_fields() -> (fields: Vec<AuthorWithPapersField>)
    ensures
        fields@ == author_with_papers_fields(),
{
    author_with_papers_fields_with(all_base_paper_fields())
}

/// Every [`PaperWithLinksField`] but the authors, citations and references
/// as a whole.
pub fn all_paper_with_links_fields() -> (fields: Vec<PaperWithLinksField>)
    ensures
        fields@ == paper_with_links_fields(),
{
    let mut fields: Vec<PaperWithLinksField> = Vec::new();
    extend_from(&mut fields, &all_base_paper_fields());
    extend_from(&mut fields, &all_author_info_fields());
    extend_with(
        &mut fields,
        &all_paper_info_fields(),
        PaperWithLinksField::references_from,
        Ghost(|field: PaperInfoField| PaperWithLinksField::References(Some(field))),
    );
    extend_with(
        &mut fields,
        &all_paper_info_fields(),
        PaperWithLinksField::citations_from,
        Ghost(|field: PaperInfoField| PaperWithLinksField::Citations(Some(field))),
    );
    assert(fields@ =~= paper_with_links_fields()) by {
        lemma_same_mapping(
            base_paper_fields(),
            |field: BasePaperField|
                <PaperWithLinksField as FromSpec<BasePaperField>>::from_spec(field),
            |field: BasePaperField| PaperWithLinksField::Base(field),
        );
        lemma_same_mapping(
            author_info_fields(),
            |field: AuthorInfoField|
                <PaperWithLinksField as FromSpec<AuthorInfoField>>::from_spec(field),
            |field: AuthorInfoField| PaperWithLinksField::Authors(Some(field)),
        );
    }
    fields
}

fn all_exclusive_full_paper_fields() -> (fields: Vec<FullPaperField>)
    ensures
        fields@ == exclusive_full_paper_fields(),
{
    let fields = vec![FullPaperField::Embedding, FullPaperField::Tldr];
    assert(fields@ =~= exclusive_full_paper_fields());
    fields
}

/// Every [`FullPaperField`] but the authors, citations and references as a
/// whole.
pub fn all_full_paper_fields() -> (fields: Vec<FullPaperField>)
    ensures
        fields@ == full_paper_fields(),
{
    let mut fields = all_exclusive_full_paper_fields();
    extend_from(&mut fields, &all_author_fields());
    extend_from(&mut fields, &all_base_paper_fields());
    extend_with(
        &mut fields,
        &all_paper_info_fields(),
        FullPaperField::citations_from,
        Ghost(|field: PaperInfoField| FullPaperField::Citations(Some(field))),
    );
    extend_with(
        &mut fields,
        &all_paper_info_fields(),
        FullPaperField::references_from,
        Ghost(|field: PaperInfoField| FullPaperField::References(Some(field))),
    );
    assert(fields@ =~= full_paper_fields()) by {
        lemma_same_mapping(
            author_fields(),
            |field: AuthorField| <FullPaperField as FromSpec<AuthorField>>::from_spec(field),
            |field: AuthorField| FullPaperField::Authors(Some(field)),
        );
        lemma_same_mapping(
            base_paper_fields(),
            |field: BasePaperField| <FullPaperField as FromSpec<BasePaperField>>::from_spec(field),
            |field: BasePaperField| FullPaperField::Base(field),
        );
    }
    fields
}

/// The fields of a citation or a reference that are none of its paper,
/// followed by `fields` of its paper.
pub fn paper_fields_with(fields: Vec<BasePaperField>) -> (all: Vec<PaperField>)
    ensures
        all@ == paper_fields_of(fields@),
{
    let mut all = all_exclusive_paper_fields();
    extend_from(&mut all, &fields);
    assert(all@ =~= paper_fields_of(fields@)) by {
        lemma_same_mapping(
            fields@,
            |field: BasePaperField| <PaperField as FromSpec<BasePaperField>>::from_spec(field),
            |field: BasePaperField| PaperField::Base(field),
        );
    }
    all
}

/// Every field of an author, followed by `fields` of the author's papers.
pub fn author_with_papers_fields_with(fields: Vec<BasePaperField>) -> (all: Vec<
    AuthorWithPapersField,
>)
    ensures
        all@ == author_with_papers_fields_of(fields@),
{
    let mut all: Vec<AuthorWithPapersField> = Vec::new();
    extend_from(&mut all, &all_author_fields());
    extend_from(&mut all, &fields);
    assert(all@ =~= author_with_papers_fields_of(fields@)) by {
        lemma_same_mapping(
            author_fields(),
            |field: AuthorField|
                <AuthorWithPapersField as FromSpec<AuthorField>>::from_spec(field),
            |field: AuthorField| AuthorWithPapersField::Author(field),
        );
        lemma_same_mapping(
            fields@,
            |field: BasePaperField|
                <AuthorWithPapersField as FromSpec<BasePaperField>>::from_spec(field),
            |field: BasePaperField| AuthorWithPapersField::Papers(Some(field)),
        );
    }
    all
}

/// Two functions that agree on every value map a sequence to the same
/// sequence.
proof fn lemma_same_mapping<A, B>(items: Seq<A>, one: spec_fn(A) -> B, other: spec_fn(A) -> B)
    requires
        forall|item: A| #[trigger] one(item) == other(item),
    ensures
        items.map_values(one) == items.map_values(other),
{
    assert(items.map_values(one) =~= items.map_values(other));
}

} // verus!
