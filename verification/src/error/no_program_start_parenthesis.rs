//! A program text that does not open with a parenthesis.

use crate::error::error_model::ErrorModel;
use crate::string::error::no_program_start_parenthesis as strings;
use vstd::prelude::*;
use vstd::string::StringExecFns;

verus! {

/// A program text that does not open with a parenthesis.
#[derive(Debug)]
pub struct NoProgramStartParenthesis {
    /// The program text.
    pub text: String,
}

impl View for NoProgramStartParenthesis {
    type V = ErrorModel;

    open spec fn view(&self) -> ErrorModel {
        ErrorModel::NoProgramStartParenthesis {
            text: self.text@,
        }
    }
}

impl NoProgramStartParenthesis {
    /// The failure that holds what is given.
    pub fn new(text: String) -> (error: Self)
        ensures
            error@ == (ErrorModel::NoProgramStartParenthesis {
                text: text@,
            }),
    {
        NoProgramStartParenthesis { text }
    }

    /// The message: what failed, and on what.
    pub open spec fn message(&self) -> Seq<char> {
        strings::display_1_text()
            + self.text@
    }

    /// The failure in one sentence, whatever it failed on.
    pub fn description(&self) -> (text: &'static str)
        ensures
            text@ == strings::description_text(),
    {
        strings::description()
    }

    /// The message as a string.
    pub fn to_string(&self) -> (text: String)
        ensures
            text@ == self.message(),
    {
        let mut text = String::from_str(strings::display_1());
        text.append(self.text.as_str());
        text
    }
}

} // verus!
