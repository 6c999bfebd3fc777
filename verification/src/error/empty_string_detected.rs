//! A token without any character.

use crate::error::error_model::ErrorModel;
use crate::string::error::empty_string_detected as strings;
use vstd::prelude::*;
use vstd::string::StringExecFns;

verus! {

/// A token without any character.
#[derive(Debug)]
pub struct EmptyStringDetected {
    /// The token.
    pub contents: String,
}

impl View for EmptyStringDetected {
    type V = ErrorModel;

    open spec fn view(&self) -> ErrorModel {
        ErrorModel::EmptyStringDetected {
            contents: self.contents@,
        }
    }
}

impl EmptyStringDetected {
    /// The failure that holds what is given.
    pub fn new(contents: String) -> (error: Self)
        ensures
            error@ == (ErrorModel::EmptyStringDetected {
                contents: contents@,
            }),
    {
        EmptyStringDetected { contents }
    }

    /// The message: what failed, and on what.
    pub open spec fn message(&self) -> Seq<char> {
        strings::display_1_text()
            + self.contents@
            + strings::display_2_text()
    }

    /// The failure in one sentence, whatever it failed on.
    pub fn description(&self) -> (text: &'static str)
        ensures
            text@ == strings::description_text(),
    {
        strings::description()
    }

    /// The message as a string.
    pub fn to_string(&self) -> (text: String)
        ensures
            text@ == self.message(),
    {
        let mut text = String::from_str(strings::display_1());
        text.append(self.contents.as_str());
        text.append(strings::display_2());
        text
    }
}

} // verus!
