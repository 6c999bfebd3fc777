//! A quote character met while a word was still being read.

use crate::error::error_model::ErrorModel;
use crate::string::decimal;
use crate::string::error::beginning_string_in_word as strings;
use vstd::prelude::*;
use vstd::string::StringExecFns;

verus! {

/// A quote character met while a word was still being read.
#[derive(Debug)]
pub struct BeginningStringInWord {
    /// The quote character.
    pub character: char,
    /// Its position in the program text, counted in characters.
    pub index: usize,
}

impl View for BeginningStringInWord {
    type V = ErrorModel;

    open spec fn view(&self) -> ErrorModel {
        ErrorModel::BeginningStringInWord {
            character: self.character,
            index: self.index,
        }
    }
}

impl BeginningStringInWord {
    /// The failure that holds what is given.
    pub fn new(character: char, index: usize) -> (error: Self)
        ensures
            error@ == (ErrorModel::BeginningStringInWord {
                character: character,
                index: index,
            }),
    {
        BeginningStringInWord { character, index }
    }

    /// The message: what failed, and on what.
    pub open spec fn message(&self) -> Seq<char> {
        strings::display_1_text().push(self.character)
            + strings::display_2_text()
            + decimal::decimal_digits(self.index as nat)
            + strings::display_3_text()
    }

    /// The failure in one sentence, whatever it failed on.
    pub fn description(&self) -> (text: &'static str)
        ensures
            text@ == strings::description_text(),
    {
        strings::description()
    }

    /// The message as a string.
    pub fn to_string(&self) -> (text: String)
        ensures
            text@ == self.message(),
    {
        let mut text = String::from_str(strings::display_1());
        text.push(self.character);
        text.append(strings::display_2());
        decimal::push_unsigned(&mut text, self.index as u64);
        text.append(strings::display_3());
        text
    }
}

} // verus!
