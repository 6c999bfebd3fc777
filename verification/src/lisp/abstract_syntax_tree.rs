//! The syntax tree of a program text, and the parser that builds it.

use crate::error::BeginningStringInWord;
use crate::error::ErrorModel;
use crate::error::InvalidPreviousChar;
use crate::error::LispError;
use crate::error::NoClosingDoubleQuote;
use crate::error::NoClosingParenthesis;
use crate::error::NoClosingSingleQuote;
use crate::error::NoProgramStartParenthesis;
use crate::lisp::abstract_syntax_tree_node::syntax_models;
use crate::lisp::abstract_syntax_tree_node::AbstractSyntaxTreeNode;
use crate::lisp::abstract_syntax_tree_object::AbstractSyntaxTreeObject;
use crate::lisp::grammar;
use crate::lisp::last_char_type::LastCharType;
use crate::lisp::syntax_model::SyntaxModel;
use crate::string::text::to_chars;
use crate::string::text::white_space;
use vstd::prelude::*;
use vstd::string::StrSliceExecFns;
use vstd::string::StringExecFns;

verus! {

/// A place in the text, or none, as the grammar counts places.
pub open spec fn place(position: Option<usize>) -> Option<int> {
    match position {
        Some(index) => Some(index as int),
        None => None,
    }
}

/// The syntax tree of a program: the group between its outermost parentheses.
pub struct AbstractSyntaxTree<'a> {
    root: AbstractSyntaxTreeNode<'a>,
}

impl<'a> View for AbstractSyntaxTree<'a> {
    type V = Seq<SyntaxModel>;

    closed spec fn view(&self) -> Seq<SyntaxModel> {
        self.root@
    }
}

impl<'a> AbstractSyntaxTree<'a> {
    /// Parses `program_text`.
    pub fn new(program_text: &'a str) -> (result: Result<Self, LispError>)
        ensures
            match grammar::parse(program_text@) {
                Ok(group) => result matches Ok(tree) && tree@ == group,
                Err(error) => result matches Err(failure) && failure@ == error,
            },
    {
        match Self::parse_program_text(program_text) {
            Ok(root) => Ok(AbstractSyntaxTree { root }),
            Err(error) => Err(error),
        }
    }

    pub fn get_root(&self) -> (root: &AbstractSyntaxTreeNode<'a>)
        ensures
            root@ == self@,
    {
        &self.root
    }

    /// Reads the group that begins before `start`, up to its closing parenthesis.
    fn parse(characters: &Vec<char>, start: usize, program_text: &'a str) -> (result: Result<
        (AbstractSyntaxTreeNode<'a>, usize),
        LispError,
    >)
        requires
            characters@ == program_text@,
            start <= characters.len(),
        ensures
            match grammar::read_group(
                program_text@,
                start as int,
                Seq::empty(),
                None,
                LastCharType::OpenParen,
            ) {
                Ok((group, next)) => result matches Ok((node, end)) && node@ == group && end
                    == next && start < end <= characters.len(),
                Err(error) => result matches Err(failure) && failure@ == error,
            },
        decreases characters.len() - start,
    {
        let ghost text = program_text@;
        let mut objects: Vec<AbstractSyntaxTreeObject<'a>> = Vec::new();
        let mut current_word_start: Option<usize> = None;
        let mut last_char_type = LastCharType::OpenParen;
        let mut index: usize = start;
        proof {
            assert(syntax_models(objects@) =~= Seq::<SyntaxModel>::empty());
        }
        while index < characters.len()
            invariant
                start <= index <= characters.len(),
                characters@ == text,
                text == program_text@,
                current_word_start matches Some(word) ==> word < index,
                grammar::read_group(text, start as int, Seq::empty(), None, LastCharType::OpenParen)
                    == grammar::read_group(
                    text,
                    index as int,
                    syntax_models(objects@),
                    place(current_word_start),
                    last_char_type,
                ),
            decreases characters.len() - index,
        {
            let character = characters[index];
            let ghost before = syntax_models(objects@);
            match character {
                '(' => {
                    match last_char_type {
                        LastCharType::Word | LastCharType::Quote => {
                            return Err(
                                LispError::InvalidPreviousChar(
                                    InvalidPreviousChar::new(character, index, last_char_type),
                                ),
                            );
                        },
                        _ => {},
                    }
                    proof {
                        grammar::lemma_read_group_advances(
                            text,
                            index + 1,
                            Seq::empty(),
                            None,
                            LastCharType::OpenParen,
                        );
                    }
                    let (inner_node, next) = match Self::parse(characters, index + 1, program_text) {
                        Ok(inner) => inner,
                        Err(error) => {
                            return Err(error);
                        },
                    };
                    let node_object = AbstractSyntaxTreeObject::Node(inner_node);
                    objects.push(node_object);
                    proof {
                        assert(syntax_models(objects@) =~= before.push(objects@.last()@));
                    }
                    last_char_type = LastCharType::CloseParen;
                    index = next;
                },
                ')' => {
                    Self::try_end_current_word(
                        &mut current_word_start,
                        index,
                        &mut objects,
                        program_text,
                    );
                    return Ok((AbstractSyntaxTreeNode::new(objects), index + 1));
                },
                character => {
                    if white_space(character) {
                        Self::try_end_current_word(
                            &mut current_word_start,
                            index,
                            &mut objects,
                            program_text,
                        );
                        last_char_type = LastCharType::WhiteSpace;
                        index += 1;
                    } else {
                        match last_char_type {
                            LastCharType::CloseParen | LastCharType::Quote => {
                                return Err(
                                    LispError::InvalidPreviousChar(
                                        InvalidPreviousChar::new(character, index, last_char_type),
                                    ),
                                );
                            },
                            _ => {},
                        }
                        match current_word_start {
                            Some(_) => {
                                match character {
                                    '"' | '\'' => {
                                        return Err(
                                            LispError::BeginningStringInWord(
                                                BeginningStringInWord::new(character, index),
                                            ),
                                        );
                                    },
                                    _ => {},
                                }
                                last_char_type = LastCharType::Word;
                                index += 1;
                            },
                            None => {
                                match character {
                                    '"' => {
                                        let (string_object, next) =
                                            match Self::parse_double_quoted_text(
                                            index,
                                            characters,
                                            program_text,
                                        ) {
                                            Ok(quoted) => quoted,
                                            Err(error) => {
                                                return Err(error);
                                            },
                                        };
                                        objects.push(string_object);
                                        proof {
                                            assert(syntax_models(objects@) =~= before.push(
                                                objects@.last()@,
                                            ));
                                        }
                                        last_char_type = LastCharType::Quote;
                                        index = next;
                                    },
                                    '\'' => {
                                        let (string_object, next) =
                                            match Self::parse_single_quoted_text(
                                            index,
                                            characters,
                                            program_text,
                                        ) {
                                            Ok(quoted) => quoted,
                                            Err(error) => {
                                                return Err(error);
                                            },
                                        };
                                        objects.push(string_object);
                                        proof {
                                            assert(syntax_models(objects@) =~= before.push(
                                                objects@.last()@,
                                            ));
                                        }
                                        last_char_type = LastCharType::Quote;
                                        index = next;
                                    },
                                    _ => {
                                        current_word_start = Some(index);
                                        last_char_type = LastCharType::Word;
                                        index += 1;
                                    },
                                }
                            },
                        }
                    }
                },
            }
        }
        Err(LispError::NoClosingParenthesis(NoClosingParenthesis::new(String::from_str(program_text))))
    }

    /// Where the quoted text that `quote` opened at `start_index` is closed.
    fn find_closing_quote(start_index: usize, characters: &Vec<char>, quote: char) -> (end: Option<
        usize,
    >)
        requires
            start_index < characters.len(),
        ensures
            place(end) == grammar::closing_quote(characters@, start_index + 1, quote, false),
            end matches Some(index) ==> start_index < index < characters.len(),
    {
        let mut is_escaped = false;
        let mut index: usize = start_index + 1;
        while index < characters.len()
            invariant
                start_index < index <= characters.len(),
                grammar::closing_quote(characters@, start_index + 1, quote, false)
                    == grammar::closing_quote(characters@, index as int, quote, is_escaped),
            decreases characters.len() - index,
        {
            let character = characters[index];
            if character == quote && !is_escaped {
                return Some(index);
            } else if character == '\\' {
                is_escaped = true;
            } else {
                is_escaped = false;
            }
            index += 1;
        }
        None
    }

    /// Reads the text between double quotes that begins at `start_index`.
    fn parse_double_quoted_text(
        start_index: usize,
        characters: &Vec<char>,
        program_text: &'a str,
    ) -> (result: Result<(AbstractSyntaxTreeObject<'a>, usize), LispError>)
        requires
            characters@ == program_text@,
            start_index < characters.len(),
        ensures
            match grammar::closing_quote(program_text@, start_index + 1, '"', false) {
                Some(end) => result matches Ok((object, next)) && object@ == SyntaxModel::String(
                    program_text@.subrange(start_index as int, end + 1),
                ) && next == end + 1 && start_index < end < characters.len(),
                None => result matches Err(failure) && failure@ == (
                ErrorModel::NoClosingDoubleQuote { text: program_text@ }),
            },
    {
        match Self::find_closing_quote(start_index, characters, '"') {
            Some(index) => {
                let end_index = index + 1;
                let word = program_text.substring_char(start_index, end_index);
                let string_object = AbstractSyntaxTreeObject::String(word);
                Ok((string_object, end_index))
            },
            None => Err(
                LispError::NoClosingDoubleQuote(
                    NoClosingDoubleQuote::new(String::from_str(program_text)),
                ),
            ),
        }
    }

    /// Parses `program_text`, which has to begin with an opening parenthesis.
    pub fn parse_program_text(program_text: &'a str) -> (result: Result<
        AbstractSyntaxTreeNode<'a>,
        LispError,
    >)
        ensures
            match grammar::parse(program_text@) {
                Ok(group) => result matches Ok(node) && node@ == group,
                Err(error) => result matches Err(failure) && failure@ == error,
            },
    {
        let characters = to_chars(program_text);
        if characters.len() == 0 || characters[0] != '(' {
            Err(
                LispError::NoProgramStartParenthesis(
                    NoProgramStartParenthesis::new(String::from_str(program_text)),
                ),
            )
        } else {
            match Self::parse(&characters, 1, program_text) {
                Ok((root, _)) => Ok(root),
                Err(error) => Err(error),
            }
        }
    }

    /// Reads the text between single quotes that begins at `start_index`.
    fn parse_single_quoted_text(
        start_index: usize,
        characters: &Vec<char>,
        program_text: &'a str,
    ) -> (result: Result<(AbstractSyntaxTreeObject<'a>, usize), LispError>)
        requires
            characters@ == program_text@,
            start_index < characters.len(),
        ensures
            match grammar::closing_quote(program_text@, start_index + 1, '\'', false) {
                Some(end) => result matches Ok((object, next)) && object@ == SyntaxModel::String(
                    program_text@.subrange(start_index as int, end + 1),
                ) && next == end + 1 && start_index < end < characters.len(),
                None => result matches Err(failure) && failure@ == (
                ErrorModel::NoClosingSingleQuote { text: program_text@ }),
            },
    {
        match Self::find_closing_quote(start_index, characters, '\'') {
            Some(index) => {
                let end_index = index + 1;
                let word = program_text.substring_char(start_index, end_index);
                let string_object = AbstractSyntaxTreeObject::String(word);
                Ok((string_object, end_index))
            },
            None => Err(
                LispError::NoClosingSingleQuote(
                    NoClosingSingleQuote::new(String::from_str(program_text)),
                ),
            ),
        }
    }

    /// Ends the word that is being read, if any, before `current_word_end`, and
    /// adds it to `objects`.
    fn try_end_current_word(
        current_word_start_option: &mut Option<usize>,
        current_word_end: usize,
        objects: &mut Vec<AbstractSyntaxTreeObject<'a>>,
        program_text: &'a str,
    )
        requires
            current_word_end <= program_text@.len(),
            *old(current_word_start_option) matches Some(start) ==> start <= current_word_end,
        ensures
            *final(current_word_start_option) is None,
            syntax_models(final(objects)@) == grammar::with_word(
                program_text@,
                syntax_models(old(objects)@),
                place(*old(current_word_start_option)),
                current_word_end as int,
            ),
    {
        match *current_word_start_option {
            Some(current_word_start) => {
                let current_word = program_text.substring_char(current_word_start, current_word_end);
                let string_object = AbstractSyntaxTreeObject::String(current_word);
                let ghost before = syntax_models(objects@);
                objects.push(string_object);
                proof {
                    assert(syntax_models(objects@) =~= before.push(objects@.last()@));
                }
                *current_word_start_option = None;
            },
            None => {},
        }
    }
}

} // verus!
