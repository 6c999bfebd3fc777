//! Which object a token stands for.

use crate::error::ErrorModel;
use crate::lisp::object_model::ObjectModel;
use crate::string::decimal::bounded_integer;
use crate::string::decimal::is_digit;
use crate::string::fraction::is_fraction_text;
use crate::string::text::has_suffix;
use vstd::prelude::*;

verus! {

/// The kinds of number that a token can name by its suffix.
#[derive(Clone, Copy, Debug, PartialEq, Eq, Structural)]
pub enum NumberKind {
    F32,
    F64,
    I8,
    I16,
    I32,
    I64,
    ISize,
    U8,
    U16,
    U32,
    U64,
    USize,
}

impl NumberKind {
    /// The suffix that names the kind.
    pub open spec fn suffix(self) -> Seq<char> {
        match self {
            NumberKind::F32 => "f32"@,
            NumberKind::F64 => "f64"@,
            NumberKind::I8 => "i8"@,
            NumberKind::I16 => "i16"@,
            NumberKind::I32 => "i32"@,
            NumberKind::I64 => "i64"@,
            NumberKind::ISize => "isize"@,
            NumberKind::U8 => "u8"@,
            NumberKind::U16 => "u16"@,
            NumberKind::U32 => "u32"@,
            NumberKind::U64 => "u64"@,
            NumberKind::USize => "usize"@,
        }
    }

    /// The name of the kind, as messages show it.
    pub open spec fn name(self) -> Seq<char> {
        match self {
            NumberKind::F32 => "ExecutionTreeObject::F32"@,
            NumberKind::F64 => "ExecutionTreeObject::F64"@,
            NumberKind::I8 => "ExecutionTreeObject::I8"@,
            NumberKind::I16 => "ExecutionTreeObject::I16"@,
            NumberKind::I32 => "ExecutionTreeObject::I32"@,
            NumberKind::I64 => "ExecutionTreeObject::I64"@,
            NumberKind::ISize => "ExecutionTreeObject::ISize"@,
            NumberKind::U8 => "ExecutionTreeObject::U8"@,
            NumberKind::U16 => "ExecutionTreeObject::U16"@,
            NumberKind::U32 => "ExecutionTreeObject::U32"@,
            NumberKind::U64 => "ExecutionTreeObject::U64"@,
            NumberKind::USize => "ExecutionTreeObject::USize"@,
        }
    }

    /// Whether numbers of the kind have a fraction.
    pub open spec fn has_fraction(self) -> bool {
        self == NumberKind::F32 || self == NumberKind::F64
    }

    /// Whether whole numbers of the kind can be negative.
    pub open spec fn signed(self) -> bool {
        match self {
            NumberKind::I8 | NumberKind::I16 | NumberKind::I32 | NumberKind::I64 | NumberKind::ISize => true,
            _ => false,
        }
    }

    /// The least whole number of the kind.
    pub open spec fn least(self) -> int {
        match self {
            NumberKind::I8 => i8::MIN as int,
            NumberKind::I16 => i16::MIN as int,
            NumberKind::I32 => i32::MIN as int,
            NumberKind::I64 => i64::MIN as int,
            NumberKind::ISize => isize::MIN as int,
            _ => 0,
        }
    }

    /// The greatest whole number of the kind.
    pub open spec fn greatest(self) -> int {
        match self {
            NumberKind::I8 => i8::MAX as int,
            NumberKind::I16 => i16::MAX as int,
            NumberKind::I32 => i32::MAX as int,
            NumberKind::I64 => i64::MAX as int,
            NumberKind::ISize => isize::MAX as int,
            NumberKind::U8 => u8::MAX as int,
            NumberKind::U16 => u16::MAX as int,
            NumberKind::U32 => u32::MAX as int,
            NumberKind::U64 => u64::MAX as int,
            NumberKind::USize => usize::MAX as int,
            _ => 0,
        }
    }

    /// The object that holds the whole number `value` as one of the kind.
    pub open spec fn whole(self, value: int) -> ObjectModel {
        match self {
            NumberKind::I8 => ObjectModel::I8(value as i8),
            NumberKind::I16 => ObjectModel::I16(value as i16),
            NumberKind::I32 => ObjectModel::I32(value as i32),
            NumberKind::I64 => ObjectModel::I64(value as i64),
            NumberKind::ISize => ObjectModel::ISize(value as isize),
            NumberKind::U8 => ObjectModel::U8(value as u8),
            NumberKind::U16 => ObjectModel::U16(value as u16),
            NumberKind::U32 => ObjectModel::U32(value as u32),
            NumberKind::U64 => ObjectModel::U64(value as u64),
            NumberKind::USize => ObjectModel::USize(value as usize),
            NumberKind::F32 | NumberKind::F64 => ObjectModel::Bool(false),
        }
    }

    /// The object that holds the literal `literal` as a number with a fraction.
    pub open spec fn fraction(self, literal: Seq<char>) -> ObjectModel {
        if self == NumberKind::F32 {
            ObjectModel::F32(literal)
        } else {
            ObjectModel::F64(literal)
        }
    }
}

/// The kind that the end of `token` names, among the suffixes of at most
/// `longest` characters: the longest suffixes are tried first, and a suffix
/// counts only where something stands before it.
pub open spec fn suffix_kind(token: Seq<char>, longest: int) -> Option<NumberKind> {
    if longest >= 5 && has_suffix(token, "isize"@) {
        Some(NumberKind::ISize)
    } else if longest >= 5 && has_suffix(token, "usize"@) {
        Some(NumberKind::USize)
    } else if longest >= 3 && has_suffix(token, "f32"@) {
        Some(NumberKind::F32)
    } else if longest >= 3 && has_suffix(token, "f64"@) {
        Some(NumberKind::F64)
    } else if longest >= 3 && has_suffix(token, "i16"@) {
        Some(NumberKind::I16)
    } else if longest >= 3 && has_suffix(token, "i32"@) {
        Some(NumberKind::I32)
    } else if longest >= 3 && has_suffix(token, "i64"@) {
        Some(NumberKind::I64)
    } else if longest >= 3 && has_suffix(token, "u16"@) {
        Some(NumberKind::U16)
    } else if longest >= 3 && has_suffix(token, "u32"@) {
        Some(NumberKind::U32)
    } else if longest >= 3 && has_suffix(token, "u64"@) {
        Some(NumberKind::U64)
    } else if longest >= 2 && has_suffix(token, "i8"@) {
        Some(NumberKind::I8)
    } else if longest >= 2 && has_suffix(token, "u8"@) {
        Some(NumberKind::U8)
    } else {
        None
    }
}

/// The number of kind `kind` that `literal` writes, or the failure that names
/// the kind and the whole token.
pub open spec fn number(token: Seq<char>, literal: Seq<char>, kind: NumberKind) -> Result<
    ObjectModel,
    ErrorModel,
> {
    let failure = Err(
        ErrorModel::NumericTokenCannotBeParsed { expected_type: kind.name(), token: token },
    );
    if kind.has_fraction() {
        if is_fraction_text(literal) {
            Ok(kind.fraction(literal))
        } else {
            failure
        }
    } else {
        match bounded_integer(literal, kind.signed(), kind.least(), kind.greatest()) {
            Some(value) => Ok(kind.whole(value)),
            None => failure,
        }
    }
}

/// The number that `token` stands for, its suffix sought among those of at
/// most `longest` characters. Without a suffix, a token with a point is a
/// number with a fraction of 64 bits, any other a whole number of 32 bits.
pub open spec fn classify_number(token: Seq<char>, longest: int) -> Result<ObjectModel, ErrorModel> {
    match suffix_kind(token, longest) {
        Some(kind) => number(token, token.take(token.len() - kind.suffix().len()), kind),
        None => if token.contains('.') {
            number(token, token, NumberKind::F64)
        } else {
            number(token, token, NumberKind::I32)
        },
    }
}

/// The character that `character` stands for after a backslash.
pub open spec fn escape(character: char) -> Option<char> {
    if character == 'n' {
        Some('\n')
    } else if character == 'r' {
        Some('\r')
    } else if character == 't' {
        Some('\t')
    } else if character == '\\' {
        Some('\\')
    } else if character == '0' {
        Some('\0')
    } else {
        None
    }
}

/// `rest` with `before` in front of it, where `rest` is a text.
pub open spec fn after(before: Seq<char>, rest: Result<Seq<char>, ErrorModel>) -> Result<
    Seq<char>,
    ErrorModel,
> {
    match rest {
        Ok(text) => Ok(before + text),
        Err(error) => Err(error),
    }
}

/// `text` with each escape sequence replaced by the character it stands for.
/// The first backslash that no character follows, or that a character without
/// a meaning follows, is the failure.
pub open spec fn unescape(text: Seq<char>) -> Result<Seq<char>, ErrorModel>
    decreases text.len(),
{
    if text.len() == 0 {
        Ok(Seq::empty())
    } else if text[0] != '\\' {
        after(seq![text[0]], unescape(text.skip(1)))
    } else if text.len() == 1 {
        Err(ErrorModel::EmptyEscapeSequence)
    } else {
        match escape(text[1]) {
            Some(character) => after(seq![character], unescape(text.skip(2))),
            None => Err(ErrorModel::InvalidEscapeSequence { escaped_character: text[1] }),
        }
    }
}

/// Whether a token that begins as `token` does is read as a number: it begins
/// with a digit, or with a sign that something follows.
pub open spec fn begins_number(token: Seq<char>) -> bool {
    token.len() > 0 && (is_digit(token[0]) || ((token[0] == '-' || token[0] == '+') && token.len()
        > 1))
}

/// The text between double quotes.
pub open spec fn classify_string(token: Seq<char>) -> Result<ObjectModel, ErrorModel> {
    if token.len() < 2 || token.last() != '"' {
        Err(ErrorModel::NoClosingDoubleQuoteInExecutionTree { token: token })
    } else {
        match unescape(token.subrange(1, token.len() - 1)) {
            Ok(text) => Ok(ObjectModel::String(text)),
            Err(error) => Err(error),
        }
    }
}

/// The character between single quotes.
pub open spec fn classify_char(token: Seq<char>) -> Result<ObjectModel, ErrorModel> {
    if token.len() < 3 {
        Err(ErrorModel::NoCharacterInSingleQuotes { token: token })
    } else if token.last() != '\'' {
        Err(ErrorModel::NoClosingSingleQuoteInExecutionTree { token: token })
    } else {
        match unescape(token.subrange(1, token.len() - 1)) {
            Ok(text) => if text.len() != 1 {
                Err(ErrorModel::MultipleCharactersInSingleQuotes { token: text })
            } else {
                Ok(ObjectModel::Char(text[0]))
            },
            Err(error) => Err(error),
        }
    }
}

/// The object that `token` stands for: `true` and `false` are the booleans; a
/// token that begins as a number is a number; one that begins with a double
/// quote is a string, with a single quote a character; any other is a symbol.
pub open spec fn classify(token: Seq<char>) -> Result<ObjectModel, ErrorModel> {
    if token == "true"@ {
        Ok(ObjectModel::Bool(true))
    } else if token == "false"@ {
        Ok(ObjectModel::Bool(false))
    } else if token.len() == 0 {
        Err(ErrorModel::EmptyStringDetected { contents: token })
    } else if begins_number(token) {
        classify_number(token, 5)
    } else if token[0] == '"' {
        classify_string(token)
    } else if token[0] == '\'' {
        classify_char(token)
    } else {
        Ok(ObjectModel::Symbol(token))
    }
}

} // verus!
