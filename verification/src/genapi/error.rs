//! The errors of the feature description.

use vstd::prelude::*;
use vstd::string::*;

verus! {

/// Why an operation on the feature description failed.
#[derive(Debug, Clone, PartialEq, Eq)]
pub enum GenApiError {
    /// The node is not of the kind that the operation needs; the text says
    /// which kind that is.
    InvalidNode(String),
}

/// A [`GenApiError`] as contracts see it.
pub enum GenApiErrorView {
    InvalidNode(Seq<char>),
}

impl View for GenApiError {
    type V = GenApiErrorView;

    open spec fn view(&self) -> GenApiErrorView {
        match self {
            GenApiError::InvalidNode(text) => GenApiErrorView::InvalidNode(text@),
        }
    }
}

impl GenApiError {
    /// An `InvalidNode` error with the given text.
    pub fn invalid_node(text: &str) -> (e: GenApiError)
        ensures
            e@ == GenApiErrorView::InvalidNode(text@),
    {
        GenApiError::InvalidNode(String::from_str(text))
    }
}

} // verus!
