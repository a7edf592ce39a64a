//! The fields of an author.

use vstd::prelude::*;
use super::paper::{BasePaperField, PaperInfoField};
use super::Field;

verus! {

/// The fields that identify an author.
#[derive(Clone, Copy, Debug, PartialEq, Eq, Hash, Structural)]
pub enum AuthorInfoField {
    AuthorId,
    Name,
}

/// The fields of an author.
#[derive(Clone, Copy, Debug, PartialEq, Eq, Hash, Structural)]
pub enum AuthorField {
    Info(AuthorInfoField),
    ExternalIds,
    Url,
    Aliases,
    Affiliations,
    Homepage,
    PaperCount,
    CitationCount,
    HIndex,
}

/// The fields of an author and of the author's papers.
#[derive(Clone, Copy, Debug, PartialEq, Eq, Hash, Structural)]
pub enum AuthorWithPapersField {
    Author(AuthorField),
    Papers(Option<BasePaperField>),
}

impl Field for AuthorInfoField {
    open spec fn name(&self) -> Seq<char> {
        match self {
            AuthorInfoField::AuthorId => "authorId"@,
            AuthorInfoField::Name => "name"@,
        }
    }

    fn to_string(&self) -> (text: String) {
        match self {
            AuthorInfoField::AuthorId => String::from_str("authorId"),
            AuthorInfoField::Name => String::from_str("name"),
        }
    }

    fn same(&self, other: &Self) -> (same: bool) {
        *self == *other
    }
}

impl Field for AuthorField {
    open spec fn name(&self) -> Seq<char> {
        match self {
            AuthorField::Info(field) => field.name(),
            AuthorField::ExternalIds => "externalIds"@,
            AuthorField::Url => "url"@,
            AuthorField::Aliases => "aliases"@,
            AuthorField::Affiliations => "affiliations"@,
            AuthorField::Homepage => "homepage"@,
            AuthorField::PaperCount => "paperCount"@,
            AuthorField::CitationCount => "citationCount"@,
            AuthorField::HIndex => "hIndex"@,
        }
    }

    fn to_string(&self) -> (text: String) {
        match self {
            AuthorField::Info(field) => field.to_string(),
            AuthorField::ExternalIds => String::from_str("externalIds"),
            AuthorField::Url => String::from_str("url"),
            AuthorField::Aliases => String::from_str("aliases"),
            AuthorField::Affiliations => String::from_str("affiliations"),
            AuthorField::Homepage => String::from_str("homepage"),
            AuthorField::PaperCount => String::from_str("paperCount"),
            AuthorField::CitationCount => String::from_str("citationCount"),
            AuthorField::HIndex => String::from_str("hIndex"),
        }
    }

    fn same(&self, other: &Self) -> (same: bool) {
        *self == *other
    }
}

impl Field for AuthorWithPapersField {
    /// A field of the papers is asked for as `papers.` and its name. The
    /// papers as a whole are asked for by their titles: the service fails
    /// on a bare `papers`.
    open spec fn name(&self) -> Seq<char> {
        match self {
            AuthorWithPapersField::Author(field) => field.name(),
            AuthorWithPapersField::Papers(Some(field)) => "papers."@ + field.name(),
            AuthorWithPapersField::Papers(None) => "papers."@ + BasePaperField::Info(
                PaperInfoField::Title,
            ).name(),
        }
    }

    fn to_string(&self) -> (text: String) {
        match self {
            AuthorWithPapersField::Author(field) => field.to_string(),
            AuthorWithPapersField::Papers(Some(field)) => String::from_str("papers.").concat(
                field.to_string().as_str(),
            ),
            AuthorWithPapersField::Papers(None) => String::from_str("papers.").concat(
                BasePaperField::Info(PaperInfoField::Title).to_string().as_str(),
            ),
        }
    }

    fn same(&self, other: &Self) -> (same: bool) {
        *self == *other
    }
}

impl From<AuthorInfoField> for AuthorField {
    fn from(field: AuthorInfoField) -> (res: AuthorField) {
        AuthorField::Info(field)
    }
}

impl vstd::std_specs::convert::FromSpecImpl<AuthorInfoField> for AuthorField {
    open spec fn obeys_from_spec() -> bool {
        true
    }

    open spec fn from_spec(field: AuthorInfoField) -> AuthorField {
        AuthorField::Info(field)
    }
}

impl From<AuthorField> for AuthorWithPapersField {
    fn from(field: AuthorField) -> (res: AuthorWithPapersField) {
        AuthorWithPapersField::Author(field)
    }
}

impl vstd::std_specs::convert::FromSpecImpl<AuthorField> for AuthorWithPapersField {
    open spec fn obeys_from_spec() -> bool {
        true
    }

    open spec fn from_spec(field: AuthorField) -> AuthorWithPapersField {
        AuthorWithPapersField::Author(field)
    }
}

impl From<AuthorInfoField> for AuthorWithPapersField {
    fn from(field: AuthorInfoField) -> (res: AuthorWithPapersField) {
        AuthorWithPapersField::Author(AuthorField::Info(field))
    }
}

impl vstd::std_specs::convert::FromSpecImpl<AuthorInfoField> for AuthorWithPapersField {
    open spec fn obeys_from_spec() -> bool {
        true
    }

    open spec fn from_spec(field: AuthorInfoField) -> AuthorWithPapersField {
        AuthorWithPapersField::Author(AuthorField::Info(field))
    }
}

impl From<BasePaperField> for AuthorWithPapersField {
    fn from(field: BasePaperField) -> (res: AuthorWithPapersField) {
        AuthorWithPapersField::Papers(Some(field))
    }
}

impl vstd::std_specs::convert::FromSpecImpl<BasePaperField> for AuthorWithPapersField {
    open spec fn obeys_from_spec() -> bool {
        true
    }

    open spec fn from_spec(field: BasePaperField) -> AuthorWithPapersField {
        AuthorWithPapersField::Papers(Some(field))
    }
}

impl From<PaperInfoField> for AuthorWithPapersField {
    fn from(field: PaperInfoField) -> (res: AuthorWithPapersField) {
        AuthorWithPapersField::Papers(Some(BasePaperField::Info(field)))
    }
}

impl vstd::std_specs::convert::FromSpecImpl<PaperInfoField> for AuthorWithPapersField {
    open spec fn obeys_from_spec() -> bool {
        true
    }

    open spec fn from_spec(field: PaperInfoField) -> AuthorWithPapersField {
        AuthorWithPapersField::Papers(Some(BasePaperField::Info(field)))
    }
}

} // verus!
