//! A backslash before a character that stands for no escape.

use crate::error::error_model::ErrorModel;
use crate::string::error::invalid_escape_sequence as strings;
use vstd::prelude::*;
use vstd::string::StringExecFns;

verus! {

/// A backslash before a character that stands for no escape.
#[derive(Debug)]
pub struct InvalidEscapeSequence {
    /// The character after the backslash.
    pub escaped_character: char,
}

impl View for InvalidEscapeSequence {
    type V = ErrorModel;

    open spec fn view(&self) -> ErrorModel {
        ErrorModel::InvalidEscapeSequence {
            escaped_character: self.escaped_character,
        }
    }
}

impl InvalidEscapeSequence {
    /// The failure that holds what is given.
    pub fn new(escaped_character: char) -> (error: Self)
        ensures
            error@ == (ErrorModel::InvalidEscapeSequence {
                escaped_character: escaped_character,
            }),
    {
        InvalidEscapeSequence { escaped_character }
    }

    /// The message: what failed, and on what.
    pub open spec fn message(&self) -> Seq<char> {
        strings::display_1_text().push(self.escaped_character)
            + strings::display_2_text()
    }

    /// The failure in one sentence, whatever it failed on.
    pub fn description(&self) -> (text: &'static str)
        ensures
            text@ == strings::description_text(),
    {
        strings::description()
    }

    /// The message as a string.
    pub fn to_string(&self) -> (text: String)
        ensures
            text@ == self.message(),
    {
        let mut text = String::from_str(strings::display_1());
        text.push(self.escaped_character);
        text.append(strings::display_2());
        text
    }
}

} // verus!
