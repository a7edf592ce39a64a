//! The one-sentence summary of a paper.

use vstd::prelude::*;

verus! {

/// A summary of a paper that a model wrote.
#[derive(Clone, Debug, Default, PartialEq, Eq)]
pub struct Tldr {
    /// The model and version that wrote the summary.
    pub model: Option<String>,
    /// The summary.
    pub text: Option<String>,
}

} // verus!
