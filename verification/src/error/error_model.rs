//! What a failure holds, as plain values.

use crate::lisp::last_char_type::LastCharType;
use vstd::prelude::*;

verus! {

/// A failure of the library, with texts as sequences of characters.
pub enum ErrorModel {
    BeginningStringInWord { character: char, index: usize },
    EmptyEscapeSequence,
    EmptyStringDetected { contents: Seq<char> },
    ErrorWrapper { description: Seq<char>, message: Seq<char> },
    InvalidEscapeSequence { escaped_character: char },
    InvalidExecutionTreeObjectConversion { actual: Seq<char>, expected: Seq<char> },
    InvalidPreviousChar { character: char, index: usize, previous_char_type: LastCharType },
    MultipleCharactersInSingleQuotes { token: Seq<char> },
    NoCharacterInSingleQuotes { token: Seq<char> },
    NoClosingDoubleQuote { text: Seq<char> },
    NoClosingDoubleQuoteInExecutionTree { token: Seq<char> },
    NoClosingParenthesis { text: Seq<char> },
    NoClosingSingleQuote { text: Seq<char> },
    NoClosingSingleQuoteInExecutionTree { token: Seq<char> },
    NoLastChar { contents: Seq<char> },
    NoProgramStartParenthesis { text: Seq<char> },
    NumericTokenCannotBeParsed { expected_type: Seq<char>, token: Seq<char> },
    SymbolNotOnStack { symbol: Seq<char> },
}

} // verus!
