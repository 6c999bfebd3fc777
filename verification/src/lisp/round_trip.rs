//! The canonical text of a literal reads back as the literal.

use crate::error::ErrorModel;
use crate::lisp::literal::begins_number;
use crate::lisp::literal::classify;
use crate::lisp::literal::classify_number;
use crate::lisp::literal::number;
use crate::lisp::literal::suffix_kind;
use crate::lisp::literal::unescape;
use crate::lisp::literal::NumberKind;
use crate::lisp::object_model::render;
use crate::lisp::object_model::ObjectModel;
use crate::string::decimal::decimal_text;
use crate::string::decimal::is_digit;
use crate::string::decimal::lemma_decimal_text_reads_back;
use crate::string::fraction::is_fraction_text;
use crate::string::text::has_suffix;
use vstd::prelude::*;

verus! {

/// Whether `text` begins as the literal of a number does: with a digit or a sign.
pub open spec fn begins_as_literal(text: Seq<char>) -> bool {
    text.len() > 0 && (is_digit(text[0]) || text[0] == '-' || text[0] == '+')
}

/// Whether `object` is a literal or a symbol that its canonical text reads
/// back as: a character other than the backslash, a string without a
/// backslash, a number with a fraction whose literal is one and begins with a
/// digit or a sign, a symbol that is a token and reads as nothing else, a
/// boolean, or any whole number.
pub open spec fn reads_back(object: ObjectModel) -> bool {
    match object {
        ObjectModel::Char(value) => value != '\\',
        ObjectModel::String(text) => !text.contains('\\'),
        ObjectModel::F32(literal) => is_fraction_text(literal) && begins_as_literal(literal),
        ObjectModel::F64(literal) => is_fraction_text(literal) && begins_as_literal(literal),
        ObjectModel::Symbol(name) => {
            &&& name.len() > 0
            &&& name != "true"@
            &&& name != "false"@
            &&& !begins_number(name)
            &&& name[0] != '"'
            &&& name[0] != '\''
        },
        ObjectModel::Node(_) => false,
        _ => true,
    }
}

/// A text that ends with a suffix ends with another one only where the two
/// end alike, and with another one of the same length only where the two are one.
pub proof fn lemma_suffix_of_joined(body: Seq<char>, suffix: Seq<char>, other: Seq<char>)
    requires
        body.len() > 0,
        suffix.len() > 0,
        other.len() > 0,
    ensures
        has_suffix(body + suffix, suffix),
        has_suffix(body + suffix, other) ==> other.last() == suffix.last(),
        has_suffix(body + suffix, other) && other.len() == suffix.len() ==> other == suffix,
{
    let token = body + suffix;
    assert(token.skip(token.len() - suffix.len()) =~= suffix);
    if has_suffix(token, other) {
        let tail = token.skip(token.len() - other.len());
        assert(tail.last() == token[token.len() - 1]);
        assert(token[token.len() - 1] == suffix.last());
    }
}

/// A text with the suffix of a kind after it names that kind.
pub proof fn lemma_suffix_names_kind(body: Seq<char>, kind: NumberKind)
    requires
        body.len() > 0,
    ensures
        suffix_kind(body + kind.suffix(), 5) == Some(kind),
        (body + kind.suffix()).take((body + kind.suffix()).len() - kind.suffix().len()) == body,
{
    reveal_strlit("isize");
    reveal_strlit("usize");
    reveal_strlit("f32");
    reveal_strlit("f64");
    reveal_strlit("i16");
    reveal_strlit("i32");
    reveal_strlit("i64");
    reveal_strlit("u16");
    reveal_strlit("u32");
    reveal_strlit("u64");
    reveal_strlit("i8");
    reveal_strlit("u8");
    let suffix = kind.suffix();
    let token = body + suffix;
    lemma_suffix_of_joined(body, suffix, "isize"@);
    lemma_suffix_of_joined(body, suffix, "usize"@);
    lemma_suffix_of_joined(body, suffix, "f32"@);
    lemma_suffix_of_joined(body, suffix, "f64"@);
    lemma_suffix_of_joined(body, suffix, "i16"@);
    lemma_suffix_of_joined(body, suffix, "i32"@);
    lemma_suffix_of_joined(body, suffix, "i64"@);
    lemma_suffix_of_joined(body, suffix, "u16"@);
    lemma_suffix_of_joined(body, suffix, "u32"@);
    lemma_suffix_of_joined(body, suffix, "u64"@);
    lemma_suffix_of_joined(body, suffix, "i8"@);
    lemma_suffix_of_joined(body, suffix, "u8"@);
    assert("isize"@[0] != "usize"@[0]);
    assert("f32"@[0] != "i32"@[0]);
    assert("f32"@[0] != "u32"@[0]);
    assert("i32"@[0] != "u32"@[0]);
    assert("f64"@[0] != "i64"@[0]);
    assert("f64"@[0] != "u64"@[0]);
    assert("i64"@[0] != "u64"@[0]);
    assert("i16"@[0] != "u16"@[0]);
    assert("i8"@[0] != "u8"@[0]);
    assert(token.take(token.len() - suffix.len()) =~= body);
}

/// A text without a backslash holds no escape sequence.
pub proof fn lemma_unescape_plain(text: Seq<char>)
    requires
        !text.contains('\\'),
    ensures
        unescape(text) == Ok::<Seq<char>, ErrorModel>(text),
    decreases text.len(),
{
    if text.len() > 0 {
        assert(text.contains(text[0]));
        let rest = text.skip(1);
        if rest.contains('\\') {
            let i = choose|i: int| 0 <= i < rest.len() && rest[i] == '\\';
            assert(text[i + 1] == '\\');
            assert(text.contains('\\'));
        }
        lemma_unescape_plain(rest);
        assert(seq![text[0]] + rest =~= text);
    } else {
        assert(text =~= Seq::<char>::empty());
    }
}

/// The canonical text of a whole number reads back as the number.
pub proof fn lemma_whole_number_reads_back(kind: NumberKind, value: int)
    requires
        !kind.has_fraction(),
        kind.least() <= value <= kind.greatest(),
    ensures
        classify(decimal_text(value) + kind.suffix()) == Ok::<ObjectModel, ErrorModel>(
            kind.whole(value),
        ),
{
    let body = decimal_text(value);
    let token = body + kind.suffix();
    lemma_decimal_text_reads_back(value, kind.signed());
    lemma_suffix_names_kind(body, kind);
    reveal_strlit("true");
    reveal_strlit("false");
    assert(token[0] == body[0]);
    assert(begins_number(token));
    assert(classify(token) == classify_number(token, 5));
    assert(classify_number(token, 5) == number(token, body, kind));
}

/// The canonical text of a number with a fraction reads back as the number,
/// where its literal begins with a digit or a sign.
pub proof fn lemma_fraction_reads_back(kind: NumberKind, literal: Seq<char>)
    requires
        kind.has_fraction(),
        is_fraction_text(literal),
        begins_as_literal(literal),
    ensures
        classify(literal + kind.suffix()) == Ok::<ObjectModel, ErrorModel>(kind.fraction(literal)),
{
    let token = literal + kind.suffix();
    lemma_suffix_names_kind(literal, kind);
    reveal_strlit("true");
    reveal_strlit("false");
    reveal_strlit("f32");
    reveal_strlit("f64");
    assert(token[0] == literal[0]);
    assert(begins_number(token));
    assert(classify(token) == classify_number(token, 5));
    assert(classify_number(token, 5) == number(token, literal, kind));
}

/// The canonical text of a literal or a symbol reads back as the object:
/// `render` is a right inverse of `classify` on the objects that `reads_back` admits.
pub proof fn lemma_literal_reads_back(object: ObjectModel)
    requires
        reads_back(object),
    ensures
        classify(render(object)) == Ok::<ObjectModel, ErrorModel>(object),
{
    reveal_strlit("true");
    reveal_strlit("false");
    match object {
        ObjectModel::Bool(value) => {},
        ObjectModel::Char(value) => {
            let token = render(object);
            let inner = token.subrange(1, token.len() - 1);
            assert(inner =~= seq![value]);
            assert(inner.skip(1) =~= Seq::<char>::empty());
            assert(unescape(inner.skip(1)) == Ok::<Seq<char>, ErrorModel>(Seq::empty()));
            assert(seq![value] + Seq::<char>::empty() =~= seq![value]);
            assert(unescape(inner) == Ok::<Seq<char>, ErrorModel>(seq![value]));
        },
        ObjectModel::F32(literal) => {
            lemma_fraction_reads_back(NumberKind::F32, literal);
        },
        ObjectModel::F64(literal) => {
            lemma_fraction_reads_back(NumberKind::F64, literal);
        },
        ObjectModel::I8(value) => {
            lemma_whole_number_reads_back(NumberKind::I8, value as int);
        },
        ObjectModel::I16(value) => {
            lemma_whole_number_reads_back(NumberKind::I16, value as int);
        },
        ObjectModel::I32(value) => {
            lemma_whole_number_reads_back(NumberKind::I32, value as int);
        },
        ObjectModel::I64(value) => {
            lemma_whole_number_reads_back(NumberKind::I64, value as int);
        },
        ObjectModel::ISize(value) => {
            lemma_whole_number_reads_back(NumberKind::ISize, value as int);
        },
        ObjectModel::Node(_) => {},
        ObjectModel::Symbol(name) => {},
        ObjectModel::String(text) => {
            let token = render(object);
            assert(token.subrange(1, token.len() - 1) =~= text);
            lemma_unescape_plain(text);
        },
        ObjectModel::U8(value) => {
            lemma_whole_number_reads_back(NumberKind::U8, value as int);
        },
        ObjectModel::U16(value) => {
            lemma_whole_number_reads_back(NumberKind::U16, value as int);
        },
        ObjectModel::U32(value) => {
            lemma_whole_number_reads_back(NumberKind::U32, value as int);
        },
        ObjectModel::U64(value) => {
            lemma_whole_number_reads_back(NumberKind::U64, value as int);
        },
        ObjectModel::USize(value) => {
            lemma_whole_number_reads_back(NumberKind::USize, value as int);
        },
    }
}

} // verus!
