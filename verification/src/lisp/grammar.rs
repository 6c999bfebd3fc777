//! The grammar of program text: which syntax tree a text is read as.

use crate::error::ErrorModel;
use crate::lisp::last_char_type::LastCharType;
use crate::lisp::syntax_model::SyntaxModel;
use crate::string::text::is_white_space;
use vstd::prelude::*;

verus! {

/// Where the quoted text that was opened with `quote` is closed: at the first
/// `quote` at or after `at` that is not escaped. A backslash escapes the
/// character after it, and any other character escapes nothing.
pub open spec fn closing_quote(text: Seq<char>, at: int, quote: char, escaped: bool) -> Option<int>
    decreases text.len() - at,
{
    if at < 0 || at >= text.len() {
        None
    } else if text[at] == quote && !escaped {
        Some(at)
    } else {
        closing_quote(text, at + 1, quote, text[at] == '\\')
    }
}

/// The objects of a group with the word that is being read, if any, added as a token.
pub open spec fn with_word(
    text: Seq<char>,
    objects: Seq<SyntaxModel>,
    word_start: Option<int>,
    at: int,
) -> Seq<SyntaxModel> {
    match word_start {
        Some(start) => objects.push(SyntaxModel::String(text.subrange(start, at))),
        None => objects,
    }
}

/// The failure for a quote that is opened with `quote` and never closed.
pub open spec fn no_closing_quote(text: Seq<char>, quote: char) -> ErrorModel {
    if quote == '"' {
        ErrorModel::NoClosingDoubleQuote { text: text }
    } else {
        ErrorModel::NoClosingSingleQuote { text: text }
    }
}

/// The group that is read from `at` on, and where the text goes on after its
/// closing parenthesis. `objects` are the objects of the group read so far,
/// `word_start` is where the word that is being read began, and `last` is the
/// class of the last character that counted.
///
/// An opening parenthesis begins a group within the group and may not follow
/// a word or a quoted text. A closing parenthesis ends the word and the
/// group. White space ends the word. A quote begins a quoted text, which runs
/// to its closing quote and is a token with both quotes, and may not stand
/// within a word. Any other character begins a word or goes on with it. No
/// character but white space and a closing parenthesis may follow a closing
/// parenthesis or a quoted text.
pub open spec fn read_group(
    text: Seq<char>,
    at: int,
    objects: Seq<SyntaxModel>,
    word_start: Option<int>,
    last: LastCharType,
) -> Result<(Seq<SyntaxModel>, int), ErrorModel>
    decreases text.len() - at,
{
    if at < 0 || at >= text.len() {
        Err(ErrorModel::NoClosingParenthesis { text: text })
    } else {
        let character = text[at];
        let misplaced = Err(
            ErrorModel::InvalidPreviousChar {
                character: character,
                index: at as usize,
                previous_char_type: last,
            },
        );
        if character == '(' {
            if last == LastCharType::Word || last == LastCharType::Quote {
                misplaced
            } else {
                match read_group(text, at + 1, Seq::empty(), None, LastCharType::OpenParen) {
                    Ok((inner, next)) => if at < next <= text.len() {
                        read_group(
                            text,
                            next,
                            objects.push(SyntaxModel::Node(inner)),
                            word_start,
                            LastCharType::CloseParen,
                        )
                    } else {
                        Err(ErrorModel::NoClosingParenthesis { text: text })
                    },
                    Err(error) => Err(error),
                }
            }
        } else if character == ')' {
            Ok((with_word(text, objects, word_start, at), at + 1))
        } else if is_white_space(character) {
            read_group(
                text,
                at + 1,
                with_word(text, objects, word_start, at),
                None,
                LastCharType::WhiteSpace,
            )
        } else if last == LastCharType::CloseParen || last == LastCharType::Quote {
            misplaced
        } else if word_start is Some {
            if character == '"' || character == '\'' {
                Err(ErrorModel::BeginningStringInWord { character: character, index: at as usize })
            } else {
                read_group(text, at + 1, objects, word_start, LastCharType::Word)
            }
        } else if character == '"' || character == '\'' {
            match closing_quote(text, at + 1, character, false) {
                Some(end) => if at < end < text.len() {
                    read_group(
                        text,
                        end + 1,
                        objects.push(SyntaxModel::String(text.subrange(at, end + 1))),
                        None,
                        LastCharType::Quote,
                    )
                } else {
                    Err(no_closing_quote(text, character))
                },
                None => Err(no_closing_quote(text, character)),
            }
        } else {
            read_group(text, at + 1, objects, Some(at), LastCharType::Word)
        }
    }
}

/// The syntax tree that `text` is read as: the group that its first
/// character, an opening parenthesis, begins. What follows the matching
/// closing parenthesis is not read.
pub open spec fn parse(text: Seq<char>) -> Result<Seq<SyntaxModel>, ErrorModel> {
    if text.len() == 0 || text[0] != '(' {
        Err(ErrorModel::NoProgramStartParenthesis { text: text })
    } else {
        match read_group(text, 1, Seq::empty(), None, LastCharType::OpenParen) {
            Ok((group, next)) => Ok(group),
            Err(error) => Err(error),
        }
    }
}

/// A closing quote lies at or after the place from which it was sought.
pub proof fn lemma_closing_quote_within(text: Seq<char>, at: int, quote: char, escaped: bool)
    requires
        0 <= at,
    ensures
        closing_quote(text, at, quote, escaped) matches Some(end) ==> at <= end < text.len()
            && text[end] == quote,
    decreases text.len() - at,
{
    if at < text.len() && !(text[at] == quote && !escaped) {
        lemma_closing_quote_within(text, at + 1, quote, text[at] == '\\');
    }
}

/// A group ends after the place from which it was read.
pub proof fn lemma_read_group_advances(
    text: Seq<char>,
    at: int,
    objects: Seq<SyntaxModel>,
    word_start: Option<int>,
    last: LastCharType,
)
    requires
        0 <= at,
    ensures
        read_group(text, at, objects, word_start, last) matches Ok((group, next)) ==> at < next
            <= text.len(),
    decreases text.len() - at,
{
    if at < text.len() {
        let character = text[at];
        if character == '(' {
            if !(last == LastCharType::Word || last == LastCharType::Quote) {
                lemma_read_group_advances(text, at + 1, Seq::empty(), None, LastCharType::OpenParen);
                match read_group(text, at + 1, Seq::empty(), None, LastCharType::OpenParen) {
                    Ok((inner, next)) => {
                        lemma_read_group_advances(
                            text,
                            next,
                            objects.push(SyntaxModel::Node(inner)),
                            word_start,
                            LastCharType::CloseParen,
                        );
                    },
                    Err(_) => {},
                }
            }
        } else if character == ')' {
        } else if is_white_space(character) {
            lemma_read_group_advances(
                text,
                at + 1,
                with_word(text, objects, word_start, at),
                None,
                LastCharType::WhiteSpace,
            );
        } else if last == LastCharType::CloseParen || last == LastCharType::Quote {
        } else if word_start is Some {
            if !(character == '"' || character == '\'') {
                lemma_read_group_advances(text, at + 1, objects, word_start, LastCharType::Word);
            }
        } else if character == '"' || character == '\'' {
            lemma_closing_quote_within(text, at + 1, character, false);
            match closing_quote(text, at + 1, character, false) {
                Some(end) => {
                    lemma_read_group_advances(
                        text,
                        end + 1,
                        objects.push(SyntaxModel::String(text.subrange(at, end + 1))),
                        None,
                        LastCharType::Quote,
                    );
                },
                None => {},
            }
        } else {
            lemma_read_group_advances(text, at + 1, objects, Some(at), LastCharType::Word);
        }
    }
}

} // verus!
