//! A double quote that is never closed in the program text.

use crate::error::error_model::ErrorModel;
use crate::string::error::no_closing_double_quote as strings;
use vstd::prelude::*;
use vstd::string::StringExecFns;

verus! {

/// A double quote that is never closed in the program text.
#[derive(Debug)]
pub struct NoClosingDoubleQuote {
    /// The program text.
    pub text: String,
}

impl View for NoClosingDoubleQuote {
    type V = ErrorModel;

    open spec fn view(&self) -> ErrorModel {
        ErrorModel::NoClosingDoubleQuote {
            text: self.text@,
        }
    }
}

impl NoClosingDoubleQuote {
    /// The failure that holds what is given.
    pub fn new(text: String) -> (error: Self)
        ensures
            error@ == (ErrorModel::NoClosingDoubleQuote {
                text: text@,
            }),
    {
        NoClosingDoubleQuote { text }
    }

    /// The message: what failed, and on what.
    pub open spec fn message(&self) -> Seq<char> {
        strings::display_1_text()
            + self.text@
    }

    /// The failure in one sentence, whatever it failed on.
    pub fn description(&self) -> (text: &'static str)
        ensures
            text@ == strings::description_text(),
    {
        strings::description()
    }

    /// The message as a string.
    pub fn to_string(&self) -> (text: String)
        ensures
            text@ == self.message(),
    {
        let mut text = String::from_str(strings::display_1());
        text.append(self.text.as_str());
        text
    }
}

} // verus!
