//! The failures of the library: one type for each, and `LispError` over them all.

pub mod error_model;
pub mod lisp_error;

pub mod beginning_string_in_word;
pub mod empty_escape_sequence;
pub mod empty_string_detected;
pub mod error_wrapper;
pub mod invalid_escape_sequence;
pub mod invalid_execution_tree_object_conversion;
pub mod invalid_previous_char;
pub mod multiple_characters_in_single_quotes;
pub mod no_character_in_single_quotes;
pub mod no_closing_double_quote;
pub mod no_closing_double_quote_in_execution_tree;
pub mod no_closing_parenthesis;
pub mod no_closing_single_quote;
pub mod no_closing_single_quote_in_execution_tree;
pub mod no_last_char;
pub mod no_program_start_parenthesis;
pub mod numeric_token_cannot_be_parsed;
pub mod symbol_not_on_stack;

pub use self::beginning_string_in_word::BeginningStringInWord;
pub use self::empty_escape_sequence::EmptyEscapeSequence;
pub use self::empty_string_detected::EmptyStringDetected;
pub use self::error_wrapper::ErrorWrapper;
pub use self::invalid_escape_sequence::InvalidEscapeSequence;
pub use self::invalid_execution_tree_object_conversion::InvalidExecutionTreeObjectConversion;
pub use self::invalid_previous_char::InvalidPreviousChar;
pub use self::multiple_characters_in_single_quotes::MultipleCharactersInSingleQuotes;
pub use self::no_character_in_single_quotes::NoCharacterInSingleQuotes;
pub use self::no_closing_double_quote::NoClosingDoubleQuote;
pub use self::no_closing_double_quote_in_execution_tree::NoClosingDoubleQuoteInExecutionTree;
pub use self::no_closing_parenthesis::NoClosingParenthesis;
pub use self::no_closing_single_quote::NoClosingSingleQuote;
pub use self::no_closing_single_quote_in_execution_tree::NoClosingSingleQuoteInExecutionTree;
pub use self::no_last_char::NoLastChar;
pub use self::no_program_start_parenthesis::NoProgramStartParenthesis;
pub use self::numeric_token_cannot_be_parsed::NumericTokenCannotBeParsed;
pub use self::symbol_not_on_stack::SymbolNotOnStack;
pub use self::error_model::ErrorModel;
pub use self::lisp_error::LispError;
