//! A failure of the host, carried through the library as text.

use crate::error::error_model::ErrorModel;
use vstd::prelude::*;

verus! {

/// A failure of the host, carried through the library as text.
#[derive(Debug)]
pub struct ErrorWrapper {
    /// The cause in one sentence.
    pub description: String,
    /// The cause's own message.
    pub message: String,
}

impl View for ErrorWrapper {
    type V = ErrorModel;

    open spec fn view(&self) -> ErrorModel {
        ErrorModel::ErrorWrapper { description: self.description@, message: self.message@ }
    }
}

impl ErrorWrapper {
    /// The failure of a cause with this description and this message.
    pub fn new(description: String, message: String) -> (error: Self)
        ensures
            error@ == (ErrorModel::ErrorWrapper { description: description@, message: message@ }),
    {
        ErrorWrapper { description, message }
    }

    /// The message: that of the cause.
    pub open spec fn message(&self) -> Seq<char> {
        self.message@
    }

    /// The cause in one sentence.
    pub fn description(&self) -> (text: &str)
        ensures
            text@ == self.description@,
    {
        self.description.as_str()
    }

    /// The message as a string.
    pub fn to_string(&self) -> (text: String)
        ensures
            text@ == self.message(),
    {
        self.message.clone()
    }
}

} // verus!
