//! What the parser remembers of the character it read last.

use vstd::prelude::*;

verus! {

/// The class of the last character that counted.
#[derive(Debug, Clone, Copy, PartialEq, Eq, Structural)]
pub enum LastCharType {
    CloseParen,
    OpenParen,
    Quote,
    WhiteSpace,
    Word,
}

impl LastCharType {
    /// The name of the class, as messages show it.
    pub open spec fn name(self) -> Seq<char> {
        match self {
            LastCharType::CloseParen => "LastCharType::CloseParen"@,
            LastCharType::OpenParen => "LastCharType::OpenParen"@,
            LastCharType::Quote => "LastCharType::Quote"@,
            LastCharType::WhiteSpace => "LastCharType::WhiteSpace"@,
            LastCharType::Word => "LastCharType::Word"@,
        }
    }

    pub fn close_paren_str() -> (text: &'static str)
        ensures
            text@ == LastCharType::CloseParen.name(),
    {
        "LastCharType::CloseParen"
    }

    pub fn open_paren_str() -> (text: &'static str)
        ensures
            text@ == LastCharType::OpenParen.name(),
    {
        "LastCharType::OpenParen"
    }

    pub fn quote_str() -> (text: &'static str)
        ensures
            text@ == LastCharType::Quote.name(),
    {
        "LastCharType::Quote"
    }

    pub fn white_space_str() -> (text: &'static str)
        ensures
            text@ == LastCharType::WhiteSpace.name(),
    {
        "LastCharType::WhiteSpace"
    }

    pub fn word_str() -> (text: &'static str)
        ensures
            text@ == LastCharType::Word.name(),
    {
        "LastCharType::Word"
    }

    /// The name of this class.
    pub fn enum_to_string(&self) -> (text: &'static str)
        ensures
            text@ == self.name(),
    {
        match self {
            LastCharType::CloseParen => Self::close_paren_str(),
            LastCharType::OpenParen => Self::open_paren_str(),
            LastCharType::Quote => Self::quote_str(),
            LastCharType::WhiteSpace => Self::white_space_str(),
            LastCharType::Word => Self::word_str(),
        }
    }
}

} // verus!
