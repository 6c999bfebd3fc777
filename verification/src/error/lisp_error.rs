//! Any failure of the library.

use crate::error::error_model::ErrorModel;
use crate::error::beginning_string_in_word::BeginningStringInWord;
use crate::error::empty_escape_sequence::EmptyEscapeSequence;
use crate::error::empty_string_detected::EmptyStringDetected;
use crate::error::error_wrapper::ErrorWrapper;
use crate::error::invalid_escape_sequence::InvalidEscapeSequence;
use crate::error::invalid_execution_tree_object_conversion::InvalidExecutionTreeObjectConversion;
use crate::error::invalid_previous_char::InvalidPreviousChar;
use crate::error::multiple_characters_in_single_quotes::MultipleCharactersInSingleQuotes;
use crate::error::no_character_in_single_quotes::NoCharacterInSingleQuotes;
use crate::error::no_closing_double_quote::NoClosingDoubleQuote;
use crate::error::no_closing_double_quote_in_execution_tree::NoClosingDoubleQuoteInExecutionTree;
use crate::error::no_closing_parenthesis::NoClosingParenthesis;
use crate::error::no_closing_single_quote::NoClosingSingleQuote;
use crate::error::no_closing_single_quote_in_execution_tree::NoClosingSingleQuoteInExecutionTree;
use crate::error::no_last_char::NoLastChar;
use crate::error::no_program_start_parenthesis::NoProgramStartParenthesis;
use crate::error::numeric_token_cannot_be_parsed::NumericTokenCannotBeParsed;
use crate::error::symbol_not_on_stack::SymbolNotOnStack;
use vstd::prelude::*;

verus! {

/// Any failure of the library: one variant for each kind.
#[derive(Debug)]
pub enum LispError {
    BeginningStringInWord(BeginningStringInWord),
    EmptyEscapeSequence(EmptyEscapeSequence),
    EmptyStringDetected(EmptyStringDetected),
    ErrorWrapper(ErrorWrapper),
    InvalidEscapeSequence(InvalidEscapeSequence),
    InvalidExecutionTreeObjectConversion(InvalidExecutionTreeObjectConversion),
    InvalidPreviousChar(InvalidPreviousChar),
    MultipleCharactersInSingleQuotes(MultipleCharactersInSingleQuotes),
    NoCharacterInSingleQuotes(NoCharacterInSingleQuotes),
    NoClosingDoubleQuote(NoClosingDoubleQuote),
    NoClosingDoubleQuoteInExecutionTree(NoClosingDoubleQuoteInExecutionTree),
    NoClosingParenthesis(NoClosingParenthesis),
    NoClosingSingleQuote(NoClosingSingleQuote),
    NoClosingSingleQuoteInExecutionTree(NoClosingSingleQuoteInExecutionTree),
    NoLastChar(NoLastChar),
    NoProgramStartParenthesis(NoProgramStartParenthesis),
    NumericTokenCannotBeParsed(NumericTokenCannotBeParsed),
    SymbolNotOnStack(SymbolNotOnStack),
}

impl View for LispError {
    type V = ErrorModel;

    open spec fn view(&self) -> ErrorModel {
        match self {
            LispError::BeginningStringInWord(error) => error@,
            LispError::EmptyEscapeSequence(error) => error@,
            LispError::EmptyStringDetected(error) => error@,
            LispError::ErrorWrapper(error) => error@,
            LispError::InvalidEscapeSequence(error) => error@,
            LispError::InvalidExecutionTreeObjectConversion(error) => error@,
            LispError::InvalidPreviousChar(error) => error@,
            LispError::MultipleCharactersInSingleQuotes(error) => error@,
            LispError::NoCharacterInSingleQuotes(error) => error@,
            LispError::NoClosingDoubleQuote(error) => error@,
            LispError::NoClosingDoubleQuoteInExecutionTree(error) => error@,
            LispError::NoClosingParenthesis(error) => error@,
            LispError::NoClosingSingleQuote(error) => error@,
            LispError::NoClosingSingleQuoteInExecutionTree(error) => error@,
            LispError::NoLastChar(error) => error@,
            LispError::NoProgramStartParenthesis(error) => error@,
            LispError::NumericTokenCannotBeParsed(error) => error@,
            LispError::SymbolNotOnStack(error) => error@,
        }
    }
}

impl LispError {
    /// The message of the failure.
    pub open spec fn message(&self) -> Seq<char> {
        match self {
            LispError::BeginningStringInWord(error) => error.message(),
            LispError::EmptyEscapeSequence(error) => error.message(),
            LispError::EmptyStringDetected(error) => error.message(),
            LispError::ErrorWrapper(error) => error.message(),
            LispError::InvalidEscapeSequence(error) => error.message(),
            LispError::InvalidExecutionTreeObjectConversion(error) => error.message(),
            LispError::InvalidPreviousChar(error) => error.message(),
            LispError::MultipleCharactersInSingleQuotes(error) => error.message(),
            LispError::NoCharacterInSingleQuotes(error) => error.message(),
            LispError::NoClosingDoubleQuote(error) => error.message(),
            LispError::NoClosingDoubleQuoteInExecutionTree(error) => error.message(),
            LispError::NoClosingParenthesis(error) => error.message(),
            LispError::NoClosingSingleQuote(error) => error.message(),
            LispError::NoClosingSingleQuoteInExecutionTree(error) => error.message(),
            LispError::NoLastChar(error) => error.message(),
            LispError::NoProgramStartParenthesis(error) => error.message(),
            LispError::NumericTokenCannotBeParsed(error) => error.message(),
            LispError::SymbolNotOnStack(error) => error.message(),
        }
    }

    /// The failure in one sentence.
    pub open spec fn description_text(&self) -> Seq<char> {
        match self {
            LispError::BeginningStringInWord(_) => crate::string::error::beginning_string_in_word::description_text(),
            LispError::EmptyEscapeSequence(_) => crate::string::error::empty_escape_sequence::description_text(),
            LispError::EmptyStringDetected(_) => crate::string::error::empty_string_detected::description_text(),
            LispError::ErrorWrapper(error) => error.description@,
            LispError::InvalidEscapeSequence(_) => crate::string::error::invalid_escape_sequence::description_text(),
            LispError::InvalidExecutionTreeObjectConversion(_) => crate::string::error::invalid_execution_tree_object_conversion::description_text(),
            LispError::InvalidPreviousChar(_) => crate::string::error::invalid_previous_char::description_text(),
            LispError::MultipleCharactersInSingleQuotes(_) => crate::string::error::multiple_characters_in_single_quotes::description_text(),
            LispError::NoCharacterInSingleQuotes(_) => crate::string::error::no_character_in_single_quotes::description_text(),
            LispError::NoClosingDoubleQuote(_) => crate::string::error::no_closing_double_quote::description_text(),
            LispError::NoClosingDoubleQuoteInExecutionTree(_) => crate::string::error::no_closing_double_quote_in_execution_tree::description_text(),
            LispError::NoClosingParenthesis(_) => crate::string::error::no_closing_parenthesis::description_text(),
            LispError::NoClosingSingleQuote(_) => crate::string::error::no_closing_single_quote::description_text(),
            LispError::NoClosingSingleQuoteInExecutionTree(_) => crate::string::error::no_closing_single_quote_in_execution_tree::description_text(),
            LispError::NoLastChar(_) => crate::string::error::no_last_char::description_text(),
            LispError::NoProgramStartParenthesis(_) => crate::string::error::no_program_start_parenthesis::description_text(),
            LispError::NumericTokenCannotBeParsed(_) => crate::string::error::numeric_token_cannot_be_parsed::description_text(),
            LispError::SymbolNotOnStack(_) => crate::string::error::symbol_not_on_stack::description_text(),
        }
    }

    /// The failure in one sentence, whatever it failed on.
    pub fn description(&self) -> (text: &str)
        ensures
            text@ == self.description_text(),
    {
        match self {
            LispError::BeginningStringInWord(error) => error.description(),
            LispError::EmptyEscapeSequence(error) => error.description(),
            LispError::EmptyStringDetected(error) => error.description(),
            LispError::ErrorWrapper(error) => error.description(),
            LispError::InvalidEscapeSequence(error) => error.description(),
            LispError::InvalidExecutionTreeObjectConversion(error) => error.description(),
            LispError::InvalidPreviousChar(error) => error.description(),
            LispError::MultipleCharactersInSingleQuotes(error) => error.description(),
            LispError::NoCharacterInSingleQuotes(error) => error.description(),
            LispError::NoClosingDoubleQuote(error) => error.description(),
            LispError::NoClosingDoubleQuoteInExecutionTree(error) => error.description(),
            LispError::NoClosingParenthesis(error) => error.description(),
            LispError::NoClosingSingleQuote(error) => error.description(),
            LispError::NoClosingSingleQuoteInExecutionTree(error) => error.description(),
            LispError::NoLastChar(error) => error.description(),
            LispError::NoProgramStartParenthesis(error) => error.description(),
            LispError::NumericTokenCannotBeParsed(error) => error.description(),
            LispError::SymbolNotOnStack(error) => error.description(),
        }
    }

    /// The message as a string.
    pub fn to_string(&self) -> (text: String)
        ensures
            text@ == self.message(),
    {
        match self {
            LispError::BeginningStringInWord(error) => error.to_string(),
            LispError::EmptyEscapeSequence(error) => error.to_string(),
            LispError::EmptyStringDetected(error) => error.to_string(),
            LispError::ErrorWrapper(error) => error.to_string(),
            LispError::InvalidEscapeSequence(error) => error.to_string(),
            LispError::InvalidExecutionTreeObjectConversion(error) => error.to_string(),
            LispError::InvalidPreviousChar(error) => error.to_string(),
            LispError::MultipleCharactersInSingleQuotes(error) => error.to_string(),
            LispError::NoCharacterInSingleQuotes(error) => error.to_string(),
            LispError::NoClosingDoubleQuote(error) => error.to_string(),
            LispError::NoClosingDoubleQuoteInExecutionTree(error) => error.to_string(),
            LispError::NoClosingParenthesis(error) => error.to_string(),
            LispError::NoClosingSingleQuote(error) => error.to_string(),
            LispError::NoClosingSingleQuoteInExecutionTree(error) => error.to_string(),
            LispError::NoLastChar(error) => error.to_string(),
            LispError::NoProgramStartParenthesis(error) => error.to_string(),
            LispError::NumericTokenCannotBeParsed(error) => error.to_string(),
            LispError::SymbolNotOnStack(error) => error.to_string(),
        }
    }
}

} // verus!
