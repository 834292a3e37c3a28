//! The one recoverable failure: a text that is not a timestamp.

use vstd::prelude::*;

verus! {

/// A text could not be read as a timestamp. `cause` says why, for a human
/// reader, and always quotes the text that was refused.
#[derive(Debug, Clone, PartialEq, Eq)]
pub struct ParseNTP64Error {
    pub cause: String,
}

impl View for ParseNTP64Error {
    type V = Seq<char>;

    /// The error as the characters of its cause.
    open spec fn view(&self) -> Seq<char> {
        self.cause@
    }
}

} // verus!
