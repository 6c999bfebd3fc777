//! A character that may not follow what stands before it.

use crate::error::error_model::ErrorModel;
use crate::lisp::last_char_type::LastCharType;
use crate::string::decimal;
use crate::string::error::invalid_previous_char as strings;
use vstd::prelude::*;
use vstd::string::StringExecFns;

verus! {

/// A character that may not follow what stands before it.
#[derive(Debug)]
pub struct InvalidPreviousChar {
    /// The character.
    pub character: char,
    /// Its position in the program text, counted in characters.
    pub index: usize,
    /// What stands before it.
    pub previous_char_type: LastCharType,
}

impl View for InvalidPreviousChar {
    type V = ErrorModel;

    open spec fn view(&self) -> ErrorModel {
        ErrorModel::InvalidPreviousChar {
            character: self.character,
            index: self.index,
            previous_char_type: self.previous_char_type,
        }
    }
}

impl InvalidPreviousChar {
    /// The failure that holds what is given.
    pub fn new(character: char, index: usize, previous_char_type: LastCharType) -> (error: Self)
        ensures
            error@ == (ErrorModel::InvalidPreviousChar {
                character: character,
                index: index,
                previous_char_type: previous_char_type,
            }),
    {
        InvalidPreviousChar { character, index, previous_char_type }
    }

    /// The message: what failed, and on what.
    pub open spec fn message(&self) -> Seq<char> {
        strings::display_1_text().push(self.character)
            + strings::display_2_text()
            + decimal::decimal_digits(self.index as nat)
            + strings::display_3_text()
            + self.previous_char_type.name()
            + strings::display_4_text()
    }

    /// The failure in one sentence, whatever it failed on.
    pub fn description(&self) -> (text: &'static str)
        ensures
            text@ == strings::description_text(),
    {
        strings::description()
    }

    /// The message as a string.
    pub fn to_string(&self) -> (text: String)
        ensures
            text@ == self.message(),
    {
        let mut text = String::from_str(strings::display_1());
        text.push(self.character);
        text.append(strings::display_2());
        decimal::push_unsigned(&mut text, self.index as u64);
        text.append(strings::display_3());
        text.append(self.previous_char_type.enum_to_string());
        text.append(strings::display_4());
        text
    }
}

} // verus!
