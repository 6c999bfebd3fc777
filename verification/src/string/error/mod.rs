//! The fixed parts of the messages, one file for each failure.

pub mod beginning_string_in_word;
pub mod empty_escape_sequence;
pub mod empty_string_detected;
pub mod invalid_escape_sequence;
pub mod invalid_execution_tree_object_conversion;
pub mod invalid_previous_char;
pub mod multiple_characters_in_single_quotes;
pub mod no_character_in_single_quotes;
pub mod no_closing_double_quote;
pub mod no_closing_double_quote_in_execution_tree;
pub mod no_closing_parenthesis;
pub mod no_closing_single_quote;
pub mod no_closing_single_quote_in_execution_tree;
pub mod no_last_char;
pub mod no_program_start_parenthesis;
pub mod numeric_token_cannot_be_parsed;
pub mod symbol_not_on_stack;
