//! A token that looks like a number and is none of the kind it names.

use crate::error::error_model::ErrorModel;
use crate::string::error::numeric_token_cannot_be_parsed as strings;
use vstd::prelude::*;
use vstd::string::StringExecFns;

verus! {

/// A token that looks like a number and is none of the kind it names.
#[derive(Debug)]
pub struct NumericTokenCannotBeParsed {
    /// The kind of number that the token names.
    pub expected_type: String,
    /// The token.
    pub token: String,
}

impl View for NumericTokenCannotBeParsed {
    type V = ErrorModel;

    open spec fn view(&self) -> ErrorModel {
        ErrorModel::NumericTokenCannotBeParsed {
            expected_type: self.expected_type@,
            token: self.token@,
        }
    }
}

impl NumericTokenCannotBeParsed {
    /// The failure that holds what is given.
    pub fn new(expected_type: String, token: String) -> (error: Self)
        ensures
            error@ == (ErrorModel::NumericTokenCannotBeParsed {
                expected_type: expected_type@,
                token: token@,
            }),
    {
        NumericTokenCannotBeParsed { expected_type, token }
    }

    /// The message: what failed, and on what.
    pub open spec fn message(&self) -> Seq<char> {
        strings::display_1_text()
            + self.token@
            + strings::display_2_text()
            + self.expected_type@
            + strings::display_3_text()
    }

    /// The failure in one sentence, whatever it failed on.
    pub fn description(&self) -> (text: &'static str)
        ensures
            text@ == strings::description_text(),
    {
        strings::description()
    }

    /// The message as a string.
    pub fn to_string(&self) -> (text: String)
        ensures
            text@ == self.message(),
    {
        let mut text = String::from_str(strings::display_1());
        text.append(self.token.as_str());
        text.append(strings::display_2());
        text.append(self.expected_type.as_str());
        text.append(strings::display_3());
        text
    }
}

} // verus!
