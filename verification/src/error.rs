//! What can go wrong.

use vstd::prelude::*;

verus! {

/// An element that the board's markup must hold is absent. No board is
/// returned then, not even in part.
#[derive(Clone, Copy, Debug, PartialEq, Eq)]
pub enum ExtractionError {
    /// The document holds no board container.
    MissingBoard,
    /// A branch row holds no contact block of the parent tier.
    MissingParent,
    /// A contact block holds no name element, or one without text.
    MissingName,
    /// A contact block holds no title element, or one without text.
    MissingTitle,
}

/// A layout could not be compiled.
#[derive(Clone, Copy, Debug, PartialEq, Eq)]
pub enum SetupError {
    /// One of the layout's texts is no CSS selector.
    InvalidSelector,
    /// The layout's path pattern is no regular expression.
    InvalidPattern,
}

/// The search found no company.
#[derive(Clone, Copy, Debug, PartialEq, Eq)]
pub struct NoResultsError;

} // verus!
