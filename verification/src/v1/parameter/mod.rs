//! The fields of authors and papers that a request can ask for.

pub mod author;
pub mod paper;

use vstd::prelude::*;

verus! {

/// A field that a request can ask the service to return.
pub trait Field: Sized {
    /// The name of the field in a request.
    spec fn name(&self) -> Seq<char>;

    /// The name of the field in a request.
    fn to_string(&self) -> (text: String)
        ensures
            text@ == self.name(),
    ;

    /// Whether `other` is the same field.
    fn same(&self, other: &Self) -> (same: bool)
        ensures
            same == (*self == *other),
    ;
}

} // verus!
