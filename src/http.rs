//! The failure of an HTTP retrieval.
use vstd::prelude::*;
use crate::text::owned;

verus! {

/// The failure of an HTTP request, with its message.
pub struct Error {
    pub error: String,
}

impl Error {
    /// An error with the given message.
    pub fn new(error: &str) -> (r: Error)
        ensures
            r.error@ == error@,
    {
        Error { error: owned(error) }
    }

    /// The message of the error.
    pub fn message(&self) -> (r: String)
        ensures
            r@ == self.error@,
    {
        owned(self.error.as_str())
    }
}

} // verus!
