//! The fields of a paper.

use vstd::prelude::*;
use super::author::{AuthorField, AuthorInfoField};
use super::Field;

verus! {

/// The fields that identify a paper.
#[derive(Clone, Copy, Debug, PartialEq, Eq, Hash, Structural)]
pub enum PaperInfoField {
    PaperId,
    Url,
    Title,
    Venue,
    Year,
    Authors,
}

/// The fields of a paper that every endpoint returns.
#[derive(Clone, Copy, Debug, PartialEq, Eq, Hash, Structural)]
pub enum BasePaperField {
    Info(PaperInfoField),
    Abstract,
    ExternalIds,
    ReferenceCount,
    CitationCount,
    InfluentialCitationCount,
    IsOpenAccess,
    FieldsOfStudy,
}

/// The fields of a citation or a reference.
#[derive(Clone, Copy, Debug, PartialEq, Eq, Hash, Structural)]
pub enum PaperField {
    Base(BasePaperField),
    Contexts,
    Intents,
    IsInfluential,
}

/// The fields of a paper with its authors, citations and references.
#[derive(Clone, Copy, Debug, PartialEq, Eq, Hash, Structural)]
pub enum PaperWithLinksField {
    Base(BasePaperField),
    Authors(Option<AuthorInfoField>),
    Citations(Option<PaperInfoField>),
    References(Option<PaperInfoField>),
}

/// All the fields of a paper.
#[derive(Clone, Copy, Debug, PartialEq, Eq, Hash, Structural)]
pub enum FullPaperField {
    Base(BasePaperField),
    Authors(Option<AuthorField>),
    Citations(Option<PaperInfoField>),
    References(Option<PaperInfoField>),
    Embedding,
    Tldr,
}

impl Field for PaperInfoField {
    open spec fn name(&self) -> Seq<char> {
        match self {
            PaperInfoField::PaperId => "paperId"@,
            PaperInfoField::Url => "url"@,
            PaperInfoField::Title => "title"@,
            PaperInfoField::Venue => "venue"@,
            PaperInfoField::Year => "year"@,
            PaperInfoField::Authors => "authors"@,
        }
    }

    fn to_string(&self) -> (text: String) {
        match self {
            PaperInfoField::PaperId => String::from_str("paperId"),
            PaperInfoField::Url => String::from_str("url"),
            PaperInfoField::Title => String::from_str("title"),
            PaperInfoField::Venue => String::from_str("venue"),
            PaperInfoField::Year => String::from_str("year"),
            PaperInfoField::Authors => String::from_str("authors"),
        }
    }

    fn same(&self, other: &Self) -> (same: bool) {
        *self == *other
    }
}

impl Field for BasePaperField {
    open spec fn name(&self) -> Seq<char> {
        match self {
            BasePaperField::Info(field) => field.name(),
            BasePaperField::Abstract => "abstract"@,
            BasePaperField::ExternalIds => "externalIds"@,
            BasePaperField::ReferenceCount => "referenceCount"@,
            BasePaperField::CitationCount => "citationCount"@,
            BasePaperField::InfluentialCitationCount => "influentialCitationCount"@,
            BasePaperField::IsOpenAccess => "isOpenAccess"@,
            BasePaperField::FieldsOfStudy => "fieldsOfStudy"@,
        }
    }

    fn to_string(&self) -> (text: String) {
        match self {
            BasePaperField::Info(field) => field.to_string(),
            BasePaperField::Abstract => String::from_str("abstract"),
            BasePaperField::ExternalIds => String::from_str("externalIds"),
            BasePaperField::ReferenceCount => String::from_str("referenceCount"),
            BasePaperField::CitationCount => String::from_str("citationCount"),
            BasePaperField::InfluentialCitationCount => String::from_str(
                "influentialCitationCount",
            ),
            BasePaperField::IsOpenAccess => String::from_str("isOpenAccess"),
            BasePaperField::FieldsOfStudy => String::from_str("fieldsOfStudy"),
        }
    }

    fn same(&self, other: &Self) -> (same: bool) {
        *self == *other
    }
}

impl Field for PaperField {
    open spec fn name(&self) -> Seq<char> {
        match self {
            PaperField::Base(field) => field.name(),
            PaperField::Contexts => "contexts"@,
            PaperField::Intents => "intents"@,
            PaperField::IsInfluential => "isInfluential"@,
        }
    }

    fn to_string(&self) -> (text: String) {
        match self {
            PaperField::Base(field) => field.to_string(),
            PaperField::Contexts => String::from_str("contexts"),
            PaperField::Intents => String::from_str("intents"),
            PaperField::IsInfluential => String::from_str("isInfluential"),
        }
    }

    fn same(&self, other: &Self) -> (same: bool) {
        *self == *other
    }
}

impl Field for PaperWithLinksField {
    /// A field of the authors, citations or references is asked for as
    /// their name, a dot and its own.
    open spec fn name(&self) -> Seq<char> {
        match self {
            PaperWithLinksField::Base(field) => field.name(),
            PaperWithLinksField::Authors(None) => "authors"@,
            PaperWithLinksField::Authors(Some(field)) => "authors."@ + field.name(),
            PaperWithLinksField::Citations(None) => "citations"@,
            PaperWithLinksField::Citations(Some(field)) => "citations."@ + field.name(),
            PaperWithLinksField::References(None) => "references"@,
            PaperWithLinksField::References(Some(field)) => "references."@ + field.name(),
        }
    }

    fn to_string(&self) -> (text: String) {
        match self {
            PaperWithLinksField::Base(field) => field.to_string(),
            PaperWithLinksField::Authors(None) => String::from_str("authors"),
            PaperWithLinksField::Authors(Some(field)) => String::from_str("authors.").concat(
                field.to_string().as_str(),
            ),
            PaperWithLinksField::Citations(None) => String::from_str("citations"),
            PaperWithLinksField::Citations(Some(field)) => String::from_str("citations.").concat(
                field.to_string().as_str(),
            ),
            PaperWithLinksField::References(None) => String::from_str("references"),
            PaperWithLinksField::References(Some(field)) => String::from_str(
                "references.",
            ).concat(field.to_string().as_str()),
        }
    }

    fn same(&self, other: &Self) -> (same: bool) {
        *self == *other
    }
}

impl Field for FullPaperField {
    /// A field of the authors, citations or references is asked for as
    /// their name, a dot and its own.
    open spec fn name(&self) -> Seq<char> {
        match self {
            FullPaperField::Base(field) => field.name(),
            FullPaperField::Authors(None) => "authors"@,
            FullPaperField::Authors(Some(field)) => "authors."@ + field.name(),
            FullPaperField::Citations(None) => "citations"@,
            FullPaperField::Citations(Some(field)) => "citations."@ + field.name(),
            FullPaperField::References(None) => "references"@,
            FullPaperField::References(Some(field)) => "references."@ + field.name(),
            FullPaperField::Embedding => "embedding"@,
            FullPaperField::Tldr => "tldr"@,
        }
    }

    fn to_string(&self) -> (text: String) {
        match self {
            FullPaperField::Base(field) => field.to_string(),
            FullPaperField::Authors(None) => String::from_str("authors"),
            FullPaperField::Authors(Some(field)) => String::from_str("authors.").concat(
                field.to_string().as_str(),
            ),
            FullPaperField::Citations(None) => String::from_str("citations"),
            FullPaperField::Citations(Some(field)) => String::from_str("citations.").concat(
                field.to_string().as_str(),
            ),
            FullPaperField::References(None) => String::from_str("references"),
            FullPaperField::References(Some(field)) => String::from_str("references.").concat(
                field.to_string().as_str(),
            ),
            FullPaperField::Embedding => String::from_str("embedding"),
            FullPaperField::Tldr => String::from_str("tldr"),
        }
    }

    fn same(&self, other: &Self) -> (same: bool) {
        *self == *other
    }
}

impl PaperWithLinksField {
    /// The field `field` of the papers that cite the paper.
    pub fn citations_from(field: PaperInfoField) -> (res: PaperWithLinksField)
        ensures
            res == PaperWithLinksField::Citations(Some(field)),
    {
        PaperWithLinksField::Citations(Some(field))
    }

    /// The field `field` of the papers that the paper cites.
    pub fn references_from(field: PaperInfoField) -> (res: PaperWithLinksField)
        ensures
            res == PaperWithLinksField::References(Some(field)),
    {
        PaperWithLinksField::References(Some(field))
    }
}

impl FullPaperField {
    /// The field `field` of the papers that cite the paper.
    pub fn citations_from(field: PaperInfoField) -> (res: FullPaperField)
        ensures
            res == FullPaperField::Citations(Some(field)),
    {
        FullPaperField::Citations(Some(field))
    }

    /// The field `field` of the papers that the paper cites.
    pub fn references_from(field: PaperInfoField) -> (res: FullPaperField)
        ensures
            res == FullPaperField::References(Some(field)),
    {
        FullPaperField::References(Some(field))
    }
}

impl From<PaperInfoField> for BasePaperField {
    fn from(field: PaperInfoField) -> (res: BasePaperField) {
        BasePaperField::Info(field)
    }
}

impl vstd::std_specs::convert::FromSpecImpl<PaperInfoField> for BasePaperField {
    open spec fn obeys_from_spec() -> bool {
        true
    }

    open spec fn from_spec(field: PaperInfoField) -> BasePaperField {
        BasePaperField::Info(field)
    }
}

impl From<BasePaperField> for PaperField {
    fn from(field: BasePaperField) -> (res: PaperField) {
        PaperField::Base(field)
    }
}

impl vstd::std_specs::convert::FromSpecImpl<BasePaperField> for PaperField {
    open spec fn obeys_from_spec() -> bool {
        true
    }

    open spec fn from_spec(field: BasePaperField) -> PaperField {
        PaperField::Base(field)
    }
}

impl From<PaperInfoField> for PaperField {
    fn from(field: PaperInfoField) -> (res: PaperField) {
        PaperField::Base(BasePaperField::Info(field))
    }
}

impl vstd::std_specs::convert::FromSpecImpl<PaperInfoField> for PaperField {
    open spec fn obeys_from_spec() -> bool {
        true
    }

    open spec fn from_spec(field: PaperInfoField) -> PaperField {
        PaperField::Base(BasePaperField::Info(field))
    }
}

impl From<BasePaperField> for PaperWithLinksField {
    fn from(field: BasePaperField) -> (res: PaperWithLinksField) {
        PaperWithLinksField::Base(field)
    }
}

impl vstd::std_specs::convert::FromSpecImpl<BasePaperField> for PaperWithLinksField {
    open spec fn obeys_from_spec() -> bool {
        true
    }

    open spec fn from_spec(field: BasePaperField) -> PaperWithLinksField {
        PaperWithLinksField::Base(field)
    }
}

impl From<PaperInfoField> for PaperWithLinksField {
    fn from(field: PaperInfoField) -> (res: PaperWithLinksField) {
        PaperWithLinksField::Base(BasePaperField::Info(field))
    }
}

impl vstd::std_specs::convert::FromSpecImpl<PaperInfoField> for PaperWithLinksField {
    open spec fn obeys_from_spec() -> bool {
        true
    }

    open spec fn from_spec(field: PaperInfoField) -> PaperWithLinksField {
        PaperWithLinksField::Base(BasePaperField::Info(field))
    }
}

impl From<AuthorInfoField> for PaperWithLinksField {
    fn from(field: AuthorInfoField) -> (res: PaperWithLinksField) {
        PaperWithLinksField::Authors(Some(field))
    }
}

impl vstd::std_specs::convert::FromSpecImpl<AuthorInfoField> for PaperWithLinksField {
    open spec fn obeys_from_spec() -> bool {
        true
    }

    open spec fn from_spec(field: AuthorInfoField) -> PaperWithLinksField {
        PaperWithLinksField::Authors(Some(field))
    }
}

impl From<BasePaperField> for FullPaperField {
    fn from(field: BasePaperField) -> (res: FullPaperField) {
        FullPaperField::Base(field)
    }
}

impl vstd::std_specs::convert::FromSpecImpl<BasePaperField> for FullPaperField {
    open spec fn obeys_from_spec() -> bool {
        true
    }

    open spec fn from_spec(field: BasePaperField) -> FullPaperField {
        FullPaperField::Base(field)
    }
}

impl From<PaperInfoField> for FullPaperField {
    fn from(field: PaperInfoField) -> (res: FullPaperField) {
        FullPaperField::Base(BasePaperField::Info(field))
    }
}

impl vstd::std_specs::convert::FromSpecImpl<PaperInfoField> for FullPaperField {
    open spec fn obeys_from_spec() -> bool {
        true
    }

    open spec fn from_spec(field: PaperInfoField) -> FullPaperField {
        FullPaperField::Base(BasePaperField::Info(field))
    }
}

impl From<AuthorField> for FullPaperField {
    fn from(field: AuthorField) -> (res: FullPaperField) {
        FullPaperField::Authors(Some(field))
    }
}

impl vstd::std_specs::convert::FromSpecImpl<AuthorField> for FullPaperField {
    open spec fn obeys_from_spec() -> bool {
        true
    }

    open spec fn from_spec(field: AuthorField) -> FullPaperField {
        FullPaperField::Authors(Some(field))
    }
}

impl From<AuthorInfoField> for FullPaperField {
    fn from(field: AuthorInfoField) -> (res: FullPaperField) {
        FullPaperField::Authors(Some(AuthorField::Info(field)))
    }
}

impl vstd::std_specs::convert::FromSpecImpl<AuthorInfoField> for FullPaperField {
    open spec fn obeys_from_spec() -> bool {
        true
    }

    open spec fn from_spec(field: AuthorInfoField) -> FullPaperField {
        FullPaperField::Authors(Some(AuthorField::Info(field)))
    }
}

} // verus!
