//! A backslash at the very end of a quoted text.

use crate::error::error_model::ErrorModel;
use crate::string::error::empty_escape_sequence as strings;
use vstd::prelude::*;
use vstd::string::StringExecFns;

verus! {

/// A backslash at the very end of a quoted text.
#[derive(Debug)]
pub struct EmptyEscapeSequence {}

impl View for EmptyEscapeSequence {
    type V = ErrorModel;

    open spec fn view(&self) -> ErrorModel {
        ErrorModel::EmptyEscapeSequence
    }
}

impl EmptyEscapeSequence {
    /// The failure.
    pub fn new() -> (error: Self)
        ensures
            error@ == ErrorModel::EmptyEscapeSequence,
    {
        EmptyEscapeSequence {}
    }

    /// The message: what failed, and on what.
    pub open spec fn message(&self) -> Seq<char> {
        strings::display_1_text()
    }

    /// The failure in one sentence, whatever it failed on.
    pub fn description(&self) -> (text: &'static str)
        ensures
            text@ == strings::description_text(),
    {
        strings::description()
    }

    /// The message as a string.
    pub fn to_string(&self) -> (text: String)
        ensures
            text@ == self.message(),
    {
        String::from_str(strings::display_1())
    }
}

} // verus!
