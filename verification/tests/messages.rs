use rlisp::error::BeginningStringInWord;
use rlisp::error::EmptyEscapeSequence;
use rlisp::error::EmptyStringDetected;
use rlisp::error::ErrorWrapper;
use rlisp::error::InvalidEscapeSequence;
use rlisp::error::InvalidExecutionTreeObjectConversion;
use rlisp::error::InvalidPreviousChar;
use rlisp::error::LispError;
use rlisp::error::MultipleCharactersInSingleQuotes;
use rlisp::error::NoCharacterInSingleQuotes;
use rlisp::error::NoClosingDoubleQuote;
use rlisp::error::NoClosingDoubleQuoteInExecutionTree;
use rlisp::error::NoClosingParenthesis;
use rlisp::error::NoClosingSingleQuote;
use rlisp::error::NoClosingSingleQuoteInExecutionTree;
use rlisp::error::NoLastChar;
use rlisp::error::NoProgramStartParenthesis;
use rlisp::error::NumericTokenCannotBeParsed;
use rlisp::error::SymbolNotOnStack;
use rlisp::lisp::LastCharType;
use rlisp::string::error;

#[test]
fn beginning_string_in_word_message() {
    let error = BeginningStringInWord::new('"', 12);
    assert_eq!(error.to_string(), "Error parsing lisp. Attempted to begin a string while parsing another word. The character, '\"', was found at index, '12' with no separation from the previous word.");
    assert_eq!(error.description(), "Error parsing lisp. Attempted to begin a string while parsing another word.");
    assert_eq!(error::beginning_string_in_word::description(), "Error parsing lisp. Attempted to begin a string while parsing another word.");
    assert_eq!(error::beginning_string_in_word::display_1(), "Error parsing lisp. Attempted to begin a string while parsing another word. The character, '");
    assert_eq!(error::beginning_string_in_word::display_2(), "', was found at index, '");
    assert_eq!(error::beginning_string_in_word::display_3(), "' with no separation from the previous word.");
    let wrapped = LispError::BeginningStringInWord(error);
    assert_eq!(wrapped.to_string(), "Error parsing lisp. Attempted to begin a string while parsing another word. The character, '\"', was found at index, '12' with no separation from the previous word.");
    assert_eq!(wrapped.description(), "Error parsing lisp. Attempted to begin a string while parsing another word.");
    assert!(matches!(wrapped, LispError::BeginningStringInWord(_)));
}

#[test]
fn empty_escape_sequence_message() {
    let error = EmptyEscapeSequence::new();
    assert_eq!(error.to_string(), "Error escaping character. A character must follow a, '\\'.");
    assert_eq!(error.description(), "Error escaping character. A character must follow a, '\\'.");
    assert_eq!(error::empty_escape_sequence::description(), "Error escaping character. A character must follow a, '\\'.");
    assert_eq!(error::empty_escape_sequence::display_1(), "Error escaping character. A character must follow a, '\\'.");
    let wrapped = LispError::EmptyEscapeSequence(error);
    assert_eq!(wrapped.to_string(), "Error escaping character. A character must follow a, '\\'.");
    assert_eq!(wrapped.description(), "Error escaping character. A character must follow a, '\\'.");
    assert!(matches!(wrapped, LispError::EmptyEscapeSequence(_)));
}

#[test]
fn empty_string_detected_message() {
    let error = EmptyStringDetected::new("some text".to_string());
    assert_eq!(error.to_string(), "Error converting string to lisp object. The string, 'some text', is empty.");
    assert_eq!(error.description(), "Error converting string to lisp object. The string is empty.");
    assert_eq!(error::empty_string_detected::description(), "Error converting string to lisp object. The string is empty.");
    assert_eq!(error::empty_string_detected::display_1(), "Error converting string to lisp object. The string, '");
    assert_eq!(error::empty_string_detected::display_2(), "', is empty.");
    let wrapped = LispError::EmptyStringDetected(error);
    assert_eq!(wrapped.to_string(), "Error converting string to lisp object. The string, 'some text', is empty.");
    assert_eq!(wrapped.description(), "Error converting string to lisp object. The string is empty.");
    assert!(matches!(wrapped, LispError::EmptyStringDetected(_)));
}

#[test]
fn invalid_escape_sequence_message() {
    let error = InvalidEscapeSequence::new('"');
    assert_eq!(error.to_string(), "Error escaping character. The character, '\"', cannot be escaped.");
    assert_eq!(error.description(), "Error escaping character. The character cannot be escaped.");
    assert_eq!(error::invalid_escape_sequence::description(), "Error escaping character. The character cannot be escaped.");
    assert_eq!(error::invalid_escape_sequence::display_1(), "Error escaping character. The character, '");
    assert_eq!(error::invalid_escape_sequence::display_2(), "', cannot be escaped.");
    let wrapped = LispError::InvalidEscapeSequence(error);
    assert_eq!(wrapped.to_string(), "Error escaping character. The character, '\"', cannot be escaped.");
    assert_eq!(wrapped.description(), "Error escaping character. The character cannot be escaped.");
    assert!(matches!(wrapped, LispError::InvalidEscapeSequence(_)));
}

#[test]
fn invalid_execution_tree_object_conversion_message() {
    let error = InvalidExecutionTreeObjectConversion::new("some text".to_string(), "some text".to_string());
    assert_eq!(error.to_string(), "Error converting from lisp execution tree object. The expected type of the object is, 'some text', but the actual type of the object is, 'some text'.");
    assert_eq!(error.description(), "Error converting from lisp execution tree object. The object is the incorrect type.");
    assert_eq!(error::invalid_execution_tree_object_conversion::description(), "Error converting from lisp execution tree object. The object is the incorrect type.");
    assert_eq!(error::invalid_execution_tree_object_conversion::display_1(), "Error converting from lisp execution tree object. The expected type of the object is, '");
    assert_eq!(error::invalid_execution_tree_object_conversion::display_2(), "', but the actual type of the object is, '");
    assert_eq!(error::invalid_execution_tree_object_conversion::display_3(), "'.");
    let wrapped = LispError::InvalidExecutionTreeObjectConversion(error);
    assert_eq!(wrapped.to_string(), "Error converting from lisp execution tree object. The expected type of the object is, 'some text', but the actual type of the object is, 'some text'.");
    assert_eq!(wrapped.description(), "Error converting from lisp execution tree object. The object is the incorrect type.");
    assert!(matches!(wrapped, LispError::InvalidExecutionTreeObjectConversion(_)));
}

#[test]
fn invalid_previous_char_message() {
    let error = InvalidPreviousChar::new('"', 12, LastCharType::Quote);
    assert_eq!(error.to_string(), "Error parsing lisp. The current character, '\"', at index, '12', cannot follow the previous character which is type, 'LastCharType::Quote'.");
    assert_eq!(error.description(), "Error parsing lisp. The current character cannot follow the previous character.");
    assert_eq!(error::invalid_previous_char::description(), "Error parsing lisp. The current character cannot follow the previous character.");
    assert_eq!(error::invalid_previous_char::display_1(), "Error parsing lisp. The current character, '");
    assert_eq!(error::invalid_previous_char::display_2(), "', at index, '");
    assert_eq!(error::invalid_previous_char::display_3(), "', cannot follow the previous character which is type, '");
    assert_eq!(error::invalid_previous_char::display_4(), "'.");
    let wrapped = LispError::InvalidPreviousChar(error);
    assert_eq!(wrapped.to_string(), "Error parsing lisp. The current character, '\"', at index, '12', cannot follow the previous character which is type, 'LastCharType::Quote'.");
    assert_eq!(wrapped.description(), "Error parsing lisp. The current character cannot follow the previous character.");
    assert!(matches!(wrapped, LispError::InvalidPreviousChar(_)));
}

#[test]
fn multiple_characters_in_single_quotes_message() {
    let error = MultipleCharactersInSingleQuotes::new("some text".to_string());
    assert_eq!(error.to_string(), "Error parsing lisp. Multiple characters found in single quotes for token, 'some text', in execution tree.");
    assert_eq!(error.description(), "Error parsing lisp. Multiple characters found in single quotes in execution tree.");
    assert_eq!(error::multiple_characters_in_single_quotes::description(), "Error parsing lisp. Multiple characters found in single quotes in execution tree.");
    assert_eq!(error::multiple_characters_in_single_quotes::display_1(), "Error parsing lisp. Multiple characters found in single quotes for token, '");
    assert_eq!(error::multiple_characters_in_single_quotes::display_2(), "', in execution tree.");
    let wrapped = LispError::MultipleCharactersInSingleQuotes(error);
    assert_eq!(wrapped.to_string(), "Error parsing lisp. Multiple characters found in single quotes for token, 'some text', in execution tree.");
    assert_eq!(wrapped.description(), "Error parsing lisp. Multiple characters found in single quotes in execution tree.");
    assert!(matches!(wrapped, LispError::MultipleCharactersInSingleQuotes(_)));
}

#[test]
fn no_character_in_single_quotes_message() {
    let error = NoCharacterInSingleQuotes::new("some text".to_string());
    assert_eq!(error.to_string(), "Error parsing lisp. No character found in single quotes for token, 'some text', in execution tree.");
    assert_eq!(error.description(), "Error parsing lisp. No character found in single quotes in execution tree.");
    assert_eq!(error::no_character_in_single_quotes::description(), "Error parsing lisp. No character found in single quotes in execution tree.");
    assert_eq!(error::no_character_in_single_quotes::display_1(), "Error parsing lisp. No character found in single quotes for token, '");
    assert_eq!(error::no_character_in_single_quotes::display_2(), "', in execution tree.");
    let wrapped = LispError::NoCharacterInSingleQuotes(error);
    assert_eq!(wrapped.to_string(), "Error parsing lisp. No character found in single quotes for token, 'some text', in execution tree.");
    assert_eq!(wrapped.description(), "Error parsing lisp. No character found in single quotes in execution tree.");
    assert!(matches!(wrapped, LispError::NoCharacterInSingleQuotes(_)));
}

#[test]
fn no_closing_double_quote_message() {
    let error = NoClosingDoubleQuote::new("some text".to_string());
    assert_eq!(error.to_string(), "Error parsing lisp. No closing double-quote found for program:\nsome text");
    assert_eq!(error.description(), "Error parsing lisp. No closing double-quote found.");
    assert_eq!(error::no_closing_double_quote::description(), "Error parsing lisp. No closing double-quote found.");
    assert_eq!(error::no_closing_double_quote::display_1(), "Error parsing lisp. No closing double-quote found for program:\n");
    let wrapped = LispError::NoClosingDoubleQuote(error);
    assert_eq!(wrapped.to_string(), "Error parsing lisp. No closing double-quote found for program:\nsome text");
    assert_eq!(wrapped.description(), "Error parsing lisp. No closing double-quote found.");
    assert!(matches!(wrapped, LispError::NoClosingDoubleQuote(_)));
}

#[test]
fn no_closing_double_quote_in_execution_tree_message() {
    let error = NoClosingDoubleQuoteInExecutionTree::new("some text".to_string());
    assert_eq!(error.to_string(), "Error parsing lisp. No closing double-quote found for token, 'some text', in execution tree.");
    assert_eq!(error.description(), "Error parsing lisp. No closing double-quote found in execution tree.");
    assert_eq!(error::no_closing_double_quote_in_execution_tree::description(), "Error parsing lisp. No closing double-quote found in execution tree.");
    assert_eq!(error::no_closing_double_quote_in_execution_tree::display_1(), "Error parsing lisp. No closing double-quote found for token, '");
    assert_eq!(error::no_closing_double_quote_in_execution_tree::display_2(), "', in execution tree.");
    let wrapped = LispError::NoClosingDoubleQuoteInExecutionTree(error);
    assert_eq!(wrapped.to_string(), "Error parsing lisp. No closing double-quote found for token, 'some text', in execution tree.");
    assert_eq!(wrapped.description(), "Error parsing lisp. No closing double-quote found in execution tree.");
    assert!(matches!(wrapped, LispError::NoClosingDoubleQuoteInExecutionTree(_)));
}

#[test]
fn no_closing_parenthesis_message() {
    let error = NoClosingParenthesis::new("some text".to_string());
    assert_eq!(error.to_string(), "Error parsing lisp. No closing parenthesis found for program:\nsome text");
    assert_eq!(error.description(), "Error parsing lisp. No closing parenthesis found.");
    assert_eq!(error::no_closing_parenthesis::description(), "Error parsing lisp. No closing parenthesis found.");
    assert_eq!(error::no_closing_parenthesis::display_1(), "Error parsing lisp. No closing parenthesis found for program:\n");
    let wrapped = LispError::NoClosingParenthesis(error);
    assert_eq!(wrapped.to_string(), "Error parsing lisp. No closing parenthesis found for program:\nsome text");
    assert_eq!(wrapped.description(), "Error parsing lisp. No closing parenthesis found.");
    assert!(matches!(wrapped, LispError::NoClosingParenthesis(_)));
}

#[test]
fn no_closing_single_quote_message() {
    let error = NoClosingSingleQuote::new("some text".to_string());
    assert_eq!(error.to_string(), "Error parsing lisp. No closing single-quote found for program:\nsome text");
    assert_eq!(error.description(), "Error parsing lisp. No closing single-quote found.");
    assert_eq!(error::no_closing_single_quote::description(), "Error parsing lisp. No closing single-quote found.");
    assert_eq!(error::no_closing_single_quote::display_1(), "Error parsing lisp. No closing single-quote found for program:\n");
    let wrapped = LispError::NoClosingSingleQuote(error);
    assert_eq!(wrapped.to_string(), "Error parsing lisp. No closing single-quote found for program:\nsome text");
    assert_eq!(wrapped.description(), "Error parsing lisp. No closing single-quote found.");
    assert!(matches!(wrapped, LispError::NoClosingSingleQuote(_)));
}

#[test]
fn no_closing_single_quote_in_execution_tree_message() {
    let error = NoClosingSingleQuoteInExecutionTree::new("some text".to_string());
    assert_eq!(error.to_string(), "Error parsing lisp. No closing single-quote found for token, 'some text', in execution tree.");
    assert_eq!(error.description(), "Error parsing lisp. No closing single-quote found in execution tree.");
    assert_eq!(error::no_closing_single_quote_in_execution_tree::description(), "Error parsing lisp. No closing single-quote found in execution tree.");
    assert_eq!(error::no_closing_single_quote_in_execution_tree::display_1(), "Error parsing lisp. No closing single-quote found for token, '");
    assert_eq!(error::no_closing_single_quote_in_execution_tree::display_2(), "', in execution tree.");
    let wrapped = LispError::NoClosingSingleQuoteInExecutionTree(error);
    assert_eq!(wrapped.to_string(), "Error parsing lisp. No closing single-quote found for token, 'some text', in execution tree.");
    assert_eq!(wrapped.description(), "Error parsing lisp. No closing single-quote found in execution tree.");
    assert!(matches!(wrapped, LispError::NoClosingSingleQuoteInExecutionTree(_)));
}

#[test]
fn no_last_char_message() {
    let error = NoLastChar::new("some text".to_string());
    assert_eq!(error.to_string(), "Error converting string to lisp object. The string, 'some text', has no last char.");
    assert_eq!(error.description(), "Error converting string to lisp object. The string has no last char.");
    assert_eq!(error::no_last_char::description(), "Error converting string to lisp object. The string has no last char.");
    assert_eq!(error::no_last_char::display_1(), "Error converting string to lisp object. The string, '");
    assert_eq!(error::no_last_char::display_2(), "', has no last char.");
    let wrapped = LispError::NoLastChar(error);
    assert_eq!(wrapped.to_string(), "Error converting string to lisp object. The string, 'some text', has no last char.");
    assert_eq!(wrapped.description(), "Error converting string to lisp object. The string has no last char.");
    assert!(matches!(wrapped, LispError::NoLastChar(_)));
}

#[test]
fn no_program_start_parenthesis_message() {
    let error = NoProgramStartParenthesis::new("some text".to_string());
    assert_eq!(error.to_string(), "Error parsing lisp. Program does not start with parenthesis. Program text:\nsome text");
    assert_eq!(error.description(), "Error parsing lisp. Program does not start with parenthesis.");
    assert_eq!(error::no_program_start_parenthesis::description(), "Error parsing lisp. Program does not start with parenthesis.");
    assert_eq!(error::no_program_start_parenthesis::display_1(), "Error parsing lisp. Program does not start with parenthesis. Program text:\n");
    let wrapped = LispError::NoProgramStartParenthesis(error);
    assert_eq!(wrapped.to_string(), "Error parsing lisp. Program does not start with parenthesis. Program text:\nsome text");
    assert_eq!(wrapped.description(), "Error parsing lisp. Program does not start with parenthesis.");
    assert!(matches!(wrapped, LispError::NoProgramStartParenthesis(_)));
}

#[test]
fn numeric_token_cannot_be_parsed_message() {
    let error = NumericTokenCannotBeParsed::new("some text".to_string(), "some text".to_string());
    assert_eq!(error.to_string(), "Error parsing lisp. Numeric token, 'some text', cannot be parsed as, 'some text'.");
    assert_eq!(error.description(), "Error parsing lisp. Numeric token cannot be parsed.");
    assert_eq!(error::numeric_token_cannot_be_parsed::description(), "Error parsing lisp. Numeric token cannot be parsed.");
    assert_eq!(error::numeric_token_cannot_be_parsed::display_1(), "Error parsing lisp. Numeric token, '");
    assert_eq!(error::numeric_token_cannot_be_parsed::display_2(), "', cannot be parsed as, '");
    assert_eq!(error::numeric_token_cannot_be_parsed::display_3(), "'.");
    let wrapped = LispError::NumericTokenCannotBeParsed(error);
    assert_eq!(wrapped.to_string(), "Error parsing lisp. Numeric token, 'some text', cannot be parsed as, 'some text'.");
    assert_eq!(wrapped.description(), "Error parsing lisp. Numeric token cannot be parsed.");
    assert!(matches!(wrapped, LispError::NumericTokenCannotBeParsed(_)));
}

#[test]
fn symbol_not_on_stack_message() {
    let error = SymbolNotOnStack::new("some text".to_string());
    assert_eq!(error.to_string(), "Error locating symbol. The symbol, 'some text', cannot be found on the stack.");
    assert_eq!(error.description(), "Error locating symbol. The symbol cannot be found on the stack.");
    assert_eq!(error::symbol_not_on_stack::description(), "Error locating symbol. The symbol cannot be found on the stack.");
    assert_eq!(error::symbol_not_on_stack::display_1(), "Error locating symbol. The symbol, '");
    assert_eq!(error::symbol_not_on_stack::display_2(), "', cannot be found on the stack.");
    let wrapped = LispError::SymbolNotOnStack(error);
    assert_eq!(wrapped.to_string(), "Error locating symbol. The symbol, 'some text', cannot be found on the stack.");
    assert_eq!(wrapped.description(), "Error locating symbol. The symbol cannot be found on the stack.");
    assert!(matches!(wrapped, LispError::SymbolNotOnStack(_)));
}

#[test]
fn error_wrapper_message() {
    let error = ErrorWrapper::new("what it is".to_string(), "what it says".to_string());
    assert_eq!(error.to_string(), "what it says");
    assert_eq!(error.description(), "what it is");
    let wrapped = LispError::ErrorWrapper(error);
    assert_eq!(wrapped.to_string(), "what it says");
    assert_eq!(wrapped.description(), "what it is");
}

#[test]
fn index_is_written_in_decimal() {
    assert_eq!(
        BeginningStringInWord::new('\'', 0).to_string(),
        "Error parsing lisp. Attempted to begin a string while parsing another word. The character, ''', was found at index, '0' with no separation from the previous word."
    );
    assert_eq!(
        InvalidPreviousChar::new('(', 1234567890, LastCharType::Word).to_string(),
        "Error parsing lisp. The current character, '(', at index, '1234567890', cannot follow the previous character which is type, 'LastCharType::Word'."
    );
}

#[test]
fn last_char_type_names() {
    assert_eq!(LastCharType::CloseParen.enum_to_string(), "LastCharType::CloseParen");
    assert_eq!(LastCharType::OpenParen.enum_to_string(), "LastCharType::OpenParen");
    assert_eq!(LastCharType::Quote.enum_to_string(), "LastCharType::Quote");
    assert_eq!(LastCharType::WhiteSpace.enum_to_string(), "LastCharType::WhiteSpace");
    assert_eq!(LastCharType::Word.enum_to_string(), "LastCharType::Word");
    assert_eq!(LastCharType::close_paren_str(), "LastCharType::CloseParen");
    assert_eq!(LastCharType::open_paren_str(), "LastCharType::OpenParen");
    assert_eq!(LastCharType::quote_str(), "LastCharType::Quote");
    assert_eq!(LastCharType::white_space_str(), "LastCharType::WhiteSpace");
    assert_eq!(LastCharType::word_str(), "LastCharType::Word");
}
