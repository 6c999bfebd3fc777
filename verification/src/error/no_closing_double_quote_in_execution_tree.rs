//! A token that opens with a double quote and does not end with one.

use crate::error::error_model::ErrorModel;
use crate::string::error::no_closing_double_quote_in_execution_tree as strings;
use vstd::prelude::*;
use vstd::string::StringExecFns;

verus! {

/// A token that opens with a double quote and does not end with one.
#[derive(Debug)]
pub struct NoClosingDoubleQuoteInExecutionTree {
    /// The token.
    pub token: String,
}

impl View for NoClosingDoubleQuoteInExecutionTree {
    type V = ErrorModel;

    open spec fn view(&self) -> ErrorModel {
        ErrorModel::NoClosingDoubleQuoteInExecutionTree {
            token: self.token@,
        }
    }
}

impl NoClosingDoubleQuoteInExecutionTree {
    /// The failure that holds what is given.
    pub fn new(token: String) -> (error: Self)
        ensures
            error@ == (ErrorModel::NoClosingDoubleQuoteInExecutionTree {
                token: token@,
            }),
    {
        NoClosingDoubleQuoteInExecutionTree { token }
    }

    /// The message: what failed, and on what.
    pub open spec fn message(&self) -> Seq<char> {
        strings::display_1_text()
            + self.token@
            + strings::display_2_text()
    }

    /// The failure in one sentence, whatever it failed on.
    pub fn description(&self) -> (text: &'static str)
        ensures
            text@ == strings::description_text(),
    {
        strings::description()
    }

    /// The message as a string.
    pub fn to_string(&self) -> (text: String)
        ensures
            text@ == self.message(),
    {
        let mut text = String::from_str(strings::display_1());
        text.append(self.token.as_str());
        text.append(strings::display_2());
        text
    }
}

} // verus!
