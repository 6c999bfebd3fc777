//! Nothing between single quotes.

use crate::error::error_model::ErrorModel;
use crate::string::error::no_character_in_single_quotes as strings;
use vstd::prelude::*;
use vstd::string::StringExecFns;

verus! {

/// Nothing between single quotes.
#[derive(Debug)]
pub struct NoCharacterInSingleQuotes {
    /// The token.
    pub token: String,
}

impl View for NoCharacterInSingleQuotes {
    type V = ErrorModel;

    open spec fn view(&self) -> ErrorModel {
        ErrorModel::NoCharacterInSingleQuotes {
            token: self.token@,
        }
    }
}

impl NoCharacterInSingleQuotes {
    /// The failure that holds what is given.
    pub fn new(token: String) -> (error: Self)
        ensures
            error@ == (ErrorModel::NoCharacterInSingleQuotes {
                token: token@,
            }),
    {
        NoCharacterInSingleQuotes { token }
    }

    /// The message: what failed, and on what.
    pub open spec fn message(&self) -> Seq<char> {
        strings::display_1_text()
            + self.token@
            + strings::display_2_text()
    }

    /// The failure in one sentence, whatever it failed on.
    pub fn description(&self) -> (text: &'static str)
        ensures
            text@ == strings::description_text(),
    {
        strings::description()
    }

    /// The message as a string.
    pub fn to_string(&self) -> (text: String)
        ensures
            text@ == self.message(),
    {
        let mut text = String::from_str(strings::display_1());
        text.append(self.token.as_str());
        text.append(strings::display_2());
        text
    }
}

} // verus!
