use scholars::v1::parameter::author::{AuthorField, AuthorInfoField, AuthorWithPapersField};
use scholars::v1::parameter::paper::{
    BasePaperField, FullPaperField, PaperField, PaperInfoField, PaperWithLinksField,
};
use scholars::v1::parameter::Field;
use scholars::v1::utils::{
    all_author_fields, all_author_info_fields, all_author_with_papers_fields,
    all_base_paper_fields, all_full_paper_fields, all_paper_fields, all_paper_info_fields,
    all_paper_with_links_fields, author_with_papers_fields_with, paper_fields_with,
};

fn names<F: Field>(fields: &[F]) -> Vec<String> {
    fields.iter().map(|field| field.to_string()).collect()
}

#[test]
fn author_field_names() {
    assert_eq!(names(&all_author_info_fields()), ["authorId", "name"]);
    assert_eq!(
        names(&all_author_fields()),
        [
            "authorId",
            "name",
            "externalIds",
            "url",
            "aliases",
            "affiliations",
            "homepage",
            "paperCount",
            "citationCount",
            "hIndex"
        ]
    );
}

#[test]
fn paper_field_names() {
    assert_eq!(
        names(&all_paper_info_fields()),
        ["paperId", "url", "title", "venue", "year", "authors"]
    );
    assert_eq!(
        names(&all_base_paper_fields()),
        [
            "externalIds",
            "abstract",
            "referenceCount",
            "citationCount",
            "influentialCitationCount",
            "isOpenAccess",
            "fieldsOfStudy",
            "paperId",
            "url",
            "title",
            "venue",
            "year",
            "authors"
        ]
    );
    let mut expected = vec!["contexts".to_string(), "intents".into(), "isInfluential".into()];
    expected.extend(names(&all_base_paper_fields()));
    assert_eq!(names(&all_paper_fields()), expected);
}

#[test]
fn author_with_papers_field_names() {
    let mut expected = names(&all_author_fields());
    expected.extend(names(&all_base_paper_fields()).iter().map(|name| format!("papers.{name}")));
    assert_eq!(names(&all_author_with_papers_fields()), expected);
    assert_eq!(AuthorWithPapersField::Papers(None).to_string(), "papers.title");
    assert_eq!(
        AuthorWithPapersField::Papers(Some(BasePaperField::Abstract)).to_string(),
        "papers.abstract"
    );
}

#[test]
fn paper_with_links_field_names() {
    let info = names(&all_paper_info_fields());
    let mut expected = names(&all_base_paper_fields());
    expected.extend(["authors.authorId".to_string(), "authors.name".into()]);
    expected.extend(info.iter().map(|name| format!("references.{name}")));
    expected.extend(info.iter().map(|name| format!("citations.{name}")));
    assert_eq!(names(&all_paper_with_links_fields()), expected);
    assert_eq!(all_paper_with_links_fields().len(), 27);
    assert_eq!(PaperWithLinksField::Authors(None).to_string(), "authors");
    assert_eq!(PaperWithLinksField::Citations(None).to_string(), "citations");
    assert_eq!(PaperWithLinksField::References(None).to_string(), "references");
}

#[test]
fn full_paper_field_names() {
    let info = names(&all_paper_info_fields());
    let mut expected = vec!["embedding".to_string(), "tldr".into()];
    expected.extend(names(&all_author_fields()).iter().map(|name| format!("authors.{name}")));
    expected.extend(names(&all_base_paper_fields()));
    expected.extend(info.iter().map(|name| format!("citations.{name}")));
    expected.extend(info.iter().map(|name| format!("references.{name}")));
    assert_eq!(names(&all_full_paper_fields()), expected);
    assert_eq!(all_full_paper_fields().len(), 37);
    assert_eq!(FullPaperField::Authors(None).to_string(), "authors");
    assert_eq!(FullPaperField::Citations(None).to_string(), "citations");
    assert_eq!(FullPaperField::References(None).to_string(), "references");
}

#[test]
fn fields_with_chosen_paper_fields() {
    let chosen = vec![BasePaperField::Abstract, BasePaperField::Info(PaperInfoField::Year)];
    assert_eq!(
        paper_fields_with(chosen.clone()),
        vec![
            PaperField::Contexts,
            PaperField::Intents,
            PaperField::IsInfluential,
            PaperField::Base(BasePaperField::Abstract),
            PaperField::Base(BasePaperField::Info(PaperInfoField::Year)),
        ]
    );
    let mut expected: Vec<AuthorWithPapersField> =
        all_author_fields().into_iter().map(AuthorWithPapersField::Author).collect();
    expected.push(AuthorWithPapersField::Papers(Some(BasePaperField::Abstract)));
    expected.push(AuthorWithPapersField::Papers(Some(BasePaperField::Info(PaperInfoField::Year))));
    assert_eq!(author_with_papers_fields_with(chosen), expected);
    assert_eq!(paper_fields_with(vec![]).len(), 3);
}

#[test]
fn field_conversions() {
    assert_eq!(AuthorField::from(AuthorInfoField::Name), AuthorField::Info(AuthorInfoField::Name));
    assert_eq!(
        AuthorWithPapersField::from(AuthorField::Url),
        AuthorWithPapersField::Author(AuthorField::Url)
    );
    assert_eq!(
        AuthorWithPapersField::from(AuthorInfoField::Name),
        AuthorWithPapersField::Author(AuthorField::Info(AuthorInfoField::Name))
    );
    assert_eq!(
        AuthorWithPapersField::from(BasePaperField::Abstract),
        AuthorWithPapersField::Papers(Some(BasePaperField::Abstract))
    );
    assert_eq!(
        AuthorWithPapersField::from(PaperInfoField::Url),
        AuthorWithPapersField::Papers(Some(BasePaperField::Info(PaperInfoField::Url)))
    );
    assert_eq!(
        BasePaperField::from(PaperInfoField::Title),
        BasePaperField::Info(PaperInfoField::Title)
    );
    assert_eq!(
        PaperField::from(BasePaperField::Abstract),
        PaperField::Base(BasePaperField::Abstract)
    );
    assert_eq!(
        PaperField::from(PaperInfoField::Title),
        PaperField::Base(BasePaperField::Info(PaperInfoField::Title))
    );
    assert_eq!(
        PaperWithLinksField::from(BasePaperField::Abstract),
        PaperWithLinksField::Base(BasePaperField::Abstract)
    );
    assert_eq!(
        PaperWithLinksField::from(PaperInfoField::Title),
        PaperWithLinksField::Base(BasePaperField::Info(PaperInfoField::Title))
    );
    assert_eq!(
        PaperWithLinksField::from(AuthorInfoField::Name),
        PaperWithLinksField::Authors(Some(AuthorInfoField::Name))
    );
    assert_eq!(
        FullPaperField::from(BasePaperField::Abstract),
        FullPaperField::Base(BasePaperField::Abstract)
    );
    assert_eq!(
        FullPaperField::from(PaperInfoField::Title),
        FullPaperField::Base(BasePaperField::Info(PaperInfoField::Title))
    );
    assert_eq!(
        FullPaperField::from(AuthorField::HIndex),
        FullPaperField::Authors(Some(AuthorField::HIndex))
    );
    assert_eq!(
        FullPaperField::from(AuthorInfoField::Name),
        FullPaperField::Authors(Some(AuthorField::Info(AuthorInfoField::Name)))
    );
    assert_eq!(
        PaperWithLinksField::citations_from(PaperInfoField::Year),
        PaperWithLinksField::Citations(Some(PaperInfoField::Year))
    );
    assert_eq!(
        PaperWithLinksField::references_from(PaperInfoField::Year),
        PaperWithLinksField::References(Some(PaperInfoField::Year))
    );
    assert_eq!(
        FullPaperField::citations_from(PaperInfoField::Year),
        FullPaperField::Citations(Some(PaperInfoField::Year))
    );
    assert_eq!(
        FullPaperField::references_from(PaperInfoField::Year),
        FullPaperField::References(Some(PaperInfoField::Year))
    );
}

#[test]
fn same_field() {
    assert!(PaperInfoField::Title.same(&PaperInfoField::Title));
    assert!(!PaperInfoField::Title.same(&PaperInfoField::Year));
    assert!(FullPaperField::Authors(None).same(&FullPaperField::Authors(None)));
    assert!(!FullPaperField::Authors(None).same(&FullPaperField::Citations(None)));
    assert!(!AuthorWithPapersField::Papers(None)
        .same(&AuthorWithPapersField::Papers(Some(BasePaperField::Info(PaperInfoField::Title)))));
}
