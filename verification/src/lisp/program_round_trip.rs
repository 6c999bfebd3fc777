//! The canonical text of a tree is a program that is read back as the tree.

use crate::error::ErrorModel;
use crate::lisp::execution_tree::lower;
use crate::lisp::execution_tree::lower_object;
use crate::lisp::grammar::closing_quote;
use crate::lisp::grammar::parse;
use crate::lisp::grammar::read_group;
use crate::lisp::grammar::with_word;
use crate::lisp::last_char_type::LastCharType;
use crate::lisp::object_model::render;
use crate::lisp::object_model::render_joined;
use crate::lisp::object_model::render_node;
use crate::lisp::object_model::ObjectModel;
use crate::lisp::round_trip::lemma_literal_reads_back;
use crate::lisp::round_trip::reads_back;
use crate::lisp::syntax_model::SyntaxModel;
use crate::string::decimal::decimal_digits;
use crate::string::decimal::decimal_text;
use crate::string::decimal::lemma_digits_read_back;
use crate::string::text::is_white_space;
use vstd::prelude::*;

verus! {

/// Whether `character` can stand within a word: it is neither white space,
/// nor a parenthesis, nor a quote.
pub open spec fn is_word_char(character: char) -> bool {
    &&& !is_white_space(character)
    &&& character != '('
    &&& character != ')'
    &&& character != '"'
    &&& character != '\''
}

/// Whether `text` is a word: at least one character, each of which can stand within a word.
pub open spec fn is_word(text: Seq<char>) -> bool {
    text.len() > 0 && forall|i: int| 0 <= i < text.len() ==> is_word_char(#[trigger] text[i])
}

/// Whether the canonical text of `object` is read back as `object`: every
/// literal and symbol within it reads back; a character is neither a
/// backslash nor a single quote; a string holds neither a backslash nor a
/// double quote; a symbol and the literal of a number with a fraction are words.
pub open spec fn writes_back(object: ObjectModel) -> bool
    decreases object,
{
    match object {
        ObjectModel::Node(objects) => forall|i: int|
            0 <= i < objects.len() ==> writes_back(#[trigger] objects[i]),
        ObjectModel::Char(value) => value != '\\' && value != '\'',
        ObjectModel::String(text) => !text.contains('\\') && !text.contains('"'),
        ObjectModel::F32(literal) => reads_back(object) && is_word(literal),
        ObjectModel::F64(literal) => reads_back(object) && is_word(literal),
        ObjectModel::Symbol(name) => reads_back(object) && is_word(name),
        _ => true,
    }
}

/// The object of the syntax tree that `object` is written as: a group for a
/// node, the canonical text as a token for anything else.
pub open spec fn syntax_of(object: ObjectModel) -> SyntaxModel
    decreases object,
{
    match object {
        ObjectModel::Node(objects) => SyntaxModel::Node(
            Seq::new(
                objects.len(),
                |i: int|
                    if 0 <= i < objects.len() {
                        syntax_of(objects[i])
                    } else {
                        SyntaxModel::String(Seq::empty())
                    },
            ),
        ),
        _ => SyntaxModel::String(render(object)),
    }
}

/// The group that `objects` are written as.
pub open spec fn syntax_of_each(objects: Seq<ObjectModel>) -> Seq<SyntaxModel> {
    Seq::new(objects.len(), |i: int| syntax_of(objects[i]))
}

/// Whether `piece` stands in `text` at `at`.
pub open spec fn stands_at(text: Seq<char>, at: int, piece: Seq<char>) -> bool {
    &&& 0 <= at
    &&& at + piece.len() <= text.len()
    &&& text.subrange(at, at + piece.len()) == piece
}

/// The canonical texts of `objects` from `from` on, with one space between neighbours.
pub open spec fn joined_from(objects: Seq<ObjectModel>, from: int) -> Seq<char>
    decreases objects.len() - from,
{
    if from < 0 || from >= objects.len() {
        Seq::empty()
    } else if from + 1 == objects.len() {
        render(objects[from])
    } else {
        render(objects[from]).push(' ') + joined_from(objects, from + 1)
    }
}

/// What is left of the canonical text of a node from its object `from` on.
pub open spec fn tail(objects: Seq<ObjectModel>, from: int) -> Seq<char> {
    joined_from(objects, from).push(')')
}

/// How the parser stands after the canonical text of `object`, which began at
/// `at`, and before what ends it: the objects of the group, where the word
/// that is being read began, and the class of the last character.
pub open spec fn after_object(object: ObjectModel, at: int, done: Seq<SyntaxModel>) -> (
    Seq<SyntaxModel>,
    Option<int>,
    LastCharType,
) {
    match object {
        ObjectModel::Node(_) => (done.push(syntax_of(object)), None, LastCharType::CloseParen),
        ObjectModel::Char(_) => (done.push(syntax_of(object)), None, LastCharType::Quote),
        ObjectModel::String(_) => (done.push(syntax_of(object)), None, LastCharType::Quote),
        _ => (done, Some(at), LastCharType::Word),
    }
}

proof fn lemma_stands_char(text: Seq<char>, at: int, piece: Seq<char>, index: int)
    requires
        stands_at(text, at, piece),
        0 <= index < piece.len(),
    ensures
        text[at + index] == piece[index],
{
    assert(text.subrange(at, at + piece.len())[index] == piece[index]);
}

proof fn lemma_stands_split(text: Seq<char>, at: int, first: Seq<char>, second: Seq<char>)
    requires
        stands_at(text, at, first + second),
    ensures
        stands_at(text, at, first),
        stands_at(text, at + first.len(), second),
{
    let whole = first + second;
    assert forall|k: int| 0 <= k < first.len() implies text.subrange(at, at + first.len())[k]
        == first[k] by {
        lemma_stands_char(text, at, whole, k);
    }
    assert(text.subrange(at, at + first.len()) =~= first);
    assert forall|k: int| 0 <= k < second.len() implies text.subrange(
        at + first.len(),
        at + first.len() + second.len(),
    )[k] == second[k] by {
        lemma_stands_char(text, at, whole, first.len() as int + k);
    }
    assert(text.subrange(at + first.len(), at + first.len() + second.len()) =~= second);
}

proof fn lemma_joined_without_last(objects: Seq<ObjectModel>, from: int)
    requires
        0 <= from,
        from + 2 <= objects.len(),
    ensures
        joined_from(objects, from) == joined_from(objects.drop_last(), from).push(' ') + render(
            objects.last(),
        ),
    decreases objects.len() - from,
{
    let shorter = objects.drop_last();
    assert(shorter[from] == objects[from]);
    if from + 2 == objects.len() {
        assert(joined_from(objects, from + 1) == render(objects.last()));
        assert(joined_from(shorter, from) == render(objects[from]));
    } else {
        lemma_joined_without_last(objects, from + 1);
        assert(joined_from(objects, from) =~= joined_from(shorter, from).push(' ') + render(
            objects.last(),
        ));
    }
}

/// The texts joined from the first object on are the texts joined.
pub proof fn lemma_joined_from_first(objects: Seq<ObjectModel>)
    ensures
        joined_from(objects, 0) == render_joined(objects),
        render_node(objects) == seq!['('] + tail(objects, 0),
    decreases objects.len(),
{
    if objects.len() >= 2 {
        lemma_joined_from_first(objects.drop_last());
        lemma_joined_without_last(objects, 0);
    }
}

proof fn lemma_digits_are_word(value: nat)
    ensures
        is_word(decimal_digits(value)),
{
    lemma_digits_read_back(value);
}

proof fn lemma_joined_words(first: Seq<char>, second: Seq<char>)
    requires
        is_word(first),
        second.len() == 0 || is_word(second),
    ensures
        is_word(first + second),
{
    let whole = first + second;
    assert forall|i: int| 0 <= i < whole.len() implies is_word_char(#[trigger] whole[i]) by {
        if i < first.len() {
            assert(whole[i] == first[i]);
        } else {
            assert(whole[i] == second[i - first.len()]);
        }
    }
}

proof fn lemma_number_is_word(value: int, suffix: Seq<char>)
    requires
        is_word(suffix),
    ensures
        is_word(decimal_text(value) + suffix),
{
    if value < 0 {
        lemma_digits_are_word((-value) as nat);
        let sign = seq!['-'];
        assert(is_word(sign));
        lemma_joined_words(sign, decimal_digits((-value) as nat));
    } else {
        lemma_digits_are_word(value as nat);
    }
    lemma_joined_words(decimal_text(value), suffix);
}

/// The canonical text of a boolean, a number or a symbol that is written
/// back is a word.
pub proof fn lemma_render_is_word(object: ObjectModel)
    requires
        writes_back(object),
        !(object is Node),
        !(object is Char),
        !(object is String),
    ensures
        is_word(render(object)),
{
    reveal_strlit("true");
    reveal_strlit("false");
    reveal_strlit("isize");
    reveal_strlit("usize");
    reveal_strlit("f32");
    reveal_strlit("f64");
    reveal_strlit("i16");
    reveal_strlit("i32");
    reveal_strlit("i64");
    reveal_strlit("u16");
    reveal_strlit("u32");
    reveal_strlit("u64");
    reveal_strlit("i8");
    reveal_strlit("u8");
    match object {
        ObjectModel::Bool(value) => {},
        ObjectModel::F32(literal) => {
            lemma_joined_words(literal, "f32"@);
        },
        ObjectModel::F64(literal) => {
            lemma_joined_words(literal, "f64"@);
        },
        ObjectModel::I8(value) => {
            lemma_number_is_word(value as int, "i8"@);
        },
        ObjectModel::I16(value) => {
            lemma_number_is_word(value as int, "i16"@);
        },
        ObjectModel::I32(value) => {
            lemma_number_is_word(value as int, "i32"@);
        },
        ObjectModel::I64(value) => {
            lemma_number_is_word(value as int, "i64"@);
        },
        ObjectModel::ISize(value) => {
            lemma_number_is_word(value as int, "isize"@);
        },
        ObjectModel::U8(value) => {
            lemma_number_is_word(value as int, "u8"@);
        },
        ObjectModel::U16(value) => {
            lemma_number_is_word(value as int, "u16"@);
        },
        ObjectModel::U32(value) => {
            lemma_number_is_word(value as int, "u32"@);
        },
        ObjectModel::U64(value) => {
            lemma_number_is_word(value as int, "u64"@);
        },
        ObjectModel::USize(value) => {
            lemma_number_is_word(value as int, "usize"@);
        },
        _ => {},
    }
}

proof fn lemma_reads_word(
    text: Seq<char>,
    start: int,
    at: int,
    end: int,
    done: Seq<SyntaxModel>,
)
    requires
        0 <= start < at <= end <= text.len(),
        forall|k: int| start <= k < end ==> is_word_char(#[trigger] text[k]),
    ensures
        read_group(text, at, done, Some(start), LastCharType::Word) == read_group(
            text,
            end,
            done,
            Some(start),
            LastCharType::Word,
        ),
    decreases end - at,
{
    if at < end {
        assert(is_word_char(text[at]));
        lemma_reads_word(text, start, at + 1, end, done);
    }
}

proof fn lemma_closing_quote_found(text: Seq<char>, at: int, end: int, quote: char)
    requires
        0 <= at <= end < text.len(),
        text[end] == quote,
        forall|k: int| at <= k < end ==> #[trigger] text[k] != quote && text[k] != '\\',
    ensures
        closing_quote(text, at, quote, false) == Some(end),
    decreases end - at,
{
    if at < end {
        assert(text[at] != quote && text[at] != '\\');
        lemma_closing_quote_found(text, at + 1, end, quote);
    }
}

proof fn lemma_reads_quoted(
    text: Seq<char>,
    at: int,
    quote: char,
    body: Seq<char>,
    done: Seq<SyntaxModel>,
    last: LastCharType,
)
    requires
        quote == '"' || quote == '\'',
        stands_at(text, at, seq![quote] + body + seq![quote]),
        !body.contains(quote),
        !body.contains('\\'),
        last == LastCharType::OpenParen || last == LastCharType::WhiteSpace,
    ensures
        read_group(text, at, done, None, last) == read_group(
            text,
            at + body.len() + 2,
            done.push(SyntaxModel::String(seq![quote] + body + seq![quote])),
            None,
            LastCharType::Quote,
        ),
{
    let piece = seq![quote] + body + seq![quote];
    let end = at + body.len() + 1;
    lemma_stands_char(text, at, piece, 0);
    lemma_stands_char(text, at, piece, body.len() as int + 1);
    assert forall|k: int| at + 1 <= k < end implies #[trigger] text[k] != quote && text[k]
        != '\\' by {
        lemma_stands_char(text, at, piece, k - at);
        assert(piece[k - at] == body[k - at - 1]);
        assert(body.contains(body[k - at - 1]));
    }
    lemma_closing_quote_found(text, at + 1, end, quote);
    assert(text.subrange(at, end + 1) == piece);
}

/// The parser reads the canonical text of an object that is written back,
/// and stands after it as `after_object` says.
pub proof fn lemma_reads_object(
    text: Seq<char>,
    at: int,
    object: ObjectModel,
    done: Seq<SyntaxModel>,
    last: LastCharType,
)
    requires
        writes_back(object),
        stands_at(text, at, render(object)),
        at + render(object).len() < text.len(),
        last == LastCharType::OpenParen || last == LastCharType::WhiteSpace,
    ensures
        render(object).len() > 0,
        read_group(text, at, done, None, last) == read_group(
            text,
            at + render(object).len(),
            after_object(object, at, done).0,
            after_object(object, at, done).1,
            after_object(object, at, done).2,
        ),
    decreases object, 0nat,
{
    let written = render(object);
    let end = at + written.len();
    match object {
        ObjectModel::Node(objects) => {
            lemma_joined_from_first(objects);
            let inner = tail(objects, 0);
            lemma_stands_split(text, at, seq!['('], inner);
            lemma_stands_char(text, at, written, 0);
            lemma_reads_tail(text, at + 1, objects, 0, Seq::empty(), LastCharType::OpenParen);
            assert(Seq::<SyntaxModel>::empty() + syntax_of_each(objects).skip(0)
                =~= syntax_of_each(objects));
            assert(syntax_of(object) == SyntaxModel::Node(syntax_of_each(objects))) by {
                assert(syntax_of(object)->Node_0 =~= syntax_of_each(objects));
            }
        },
        ObjectModel::Char(value) => {
            let body = seq![value];
            assert(written =~= seq!['\''] + body + seq!['\'']);
            lemma_reads_quoted(text, at, '\'', body, done, last);
        },
        ObjectModel::String(body) => {
            assert(written =~= seq!['"'] + body + seq!['"']);
            lemma_reads_quoted(text, at, '"', body, done, last);
        },
        _ => {
            lemma_render_is_word(object);
            assert forall|k: int| at <= k < end implies is_word_char(#[trigger] text[k]) by {
                lemma_stands_char(text, at, written, k - at);
                assert(is_word_char(written[k - at]));
            }
            assert(is_word_char(text[at]));
            lemma_reads_word(text, at, at + 1, end, done);
        },
    }
}

/// The parser reads what is left of the canonical text of a node, from its
/// object `from` on, as the objects that those objects are written as, and
/// ends after the closing parenthesis.
pub proof fn lemma_reads_tail(
    text: Seq<char>,
    at: int,
    objects: Seq<ObjectModel>,
    from: int,
    done: Seq<SyntaxModel>,
    last: LastCharType,
)
    requires
        0 <= from <= objects.len(),
        forall|i: int| 0 <= i < objects.len() ==> writes_back(#[trigger] objects[i]),
        stands_at(text, at, tail(objects, from)),
        last == LastCharType::OpenParen || last == LastCharType::WhiteSpace,
    ensures
        read_group(text, at, done, None, last) == Ok::<(Seq<SyntaxModel>, int), ErrorModel>(
            (done + syntax_of_each(objects).skip(from), at + tail(objects, from).len()),
        ),
    decreases objects, objects.len() - from,
{
    let written = syntax_of_each(objects);
    if from == objects.len() {
        lemma_stands_char(text, at, tail(objects, from), 0);
        assert(done + written.skip(from) =~= done);
    } else {
        let object = objects[from];
        let text_of = render(object);
        let end = at + text_of.len();
        let rest = tail(objects, from + 1);
        assert(writes_back(object));
        if from + 1 == objects.len() {
            assert(tail(objects, from) =~= text_of + rest);
            lemma_stands_split(text, at, text_of, rest);
            lemma_reads_object(text, at, object, done, last);
            lemma_stands_char(text, end, rest, 0);
            assert(text[end] == ')');
            assert(text.subrange(at, end) == text_of);
            assert(done + written.skip(from) =~= done.push(syntax_of(object)));
        } else {
            assert(tail(objects, from) =~= text_of + (seq![' '] + rest));
            lemma_stands_split(text, at, text_of, seq![' '] + rest);
            lemma_stands_split(text, end, seq![' '], rest);
            lemma_reads_object(text, at, object, done, last);
            lemma_stands_char(text, end, seq![' '], 0);
            assert(text[end] == ' ');
            assert(is_white_space(' '));
            assert(text.subrange(at, end) == text_of);
            let state = after_object(object, at, done);
            assert(with_word(text, state.0, state.1, end) == done.push(syntax_of(object)));
            lemma_reads_tail(
                text,
                end + 1,
                objects,
                from + 1,
                done.push(syntax_of(object)),
                LastCharType::WhiteSpace,
            );
            assert(done.push(syntax_of(object)) + written.skip(from + 1) =~= done + written.skip(
                from,
            ));
        }
    }
}

/// The objects that a tree is written as stand for the objects of the tree.
pub proof fn lemma_written_objects_lower(objects: Seq<ObjectModel>)
    requires
        forall|i: int| 0 <= i < objects.len() ==> writes_back(#[trigger] objects[i]),
    ensures
        lower(syntax_of_each(objects)) == Ok::<Seq<ObjectModel>, ErrorModel>(objects),
    decreases objects, objects.len(),
{
    let written = syntax_of_each(objects);
    if objects.len() == 0 {
        assert(objects =~= Seq::<ObjectModel>::empty());
    } else {
        let shorter = objects.drop_last();
        let object = objects.last();
        assert forall|i: int| 0 <= i < shorter.len() implies writes_back(#[trigger] shorter[i]) by {
            assert(writes_back(objects[i]));
        }
        assert(decreases_to!(objects => shorter));
        lemma_written_objects_lower(shorter);
        assert(written.drop_last() =~= syntax_of_each(shorter));
        assert(written.last() == syntax_of(object));
        assert(writes_back(object));
        match object {
            ObjectModel::Node(inner) => {
                lemma_written_objects_lower(inner);
                assert(syntax_of(object)->Node_0 =~= syntax_of_each(inner));
            },
            _ => {
                lemma_literal_reads_back(object);
            },
        }
        assert(lower_object(syntax_of(object)) == Ok::<ObjectModel, ErrorModel>(object));
        assert(shorter.push(object) =~= objects);
    }
}

/// The canonical text of a tree that is written back is a program: it is
/// parsed as the objects that the tree is written as, and these stand for
/// the objects of the tree. So the text of what was read from such a program
/// is the program.
pub proof fn lemma_program_round_trip(objects: Seq<ObjectModel>)
    requires
        forall|i: int| 0 <= i < objects.len() ==> writes_back(#[trigger] objects[i]),
    ensures
        parse(render_node(objects)) == Ok::<Seq<SyntaxModel>, ErrorModel>(
            syntax_of_each(objects),
        ),
        lower(syntax_of_each(objects)) == Ok::<Seq<ObjectModel>, ErrorModel>(objects),
{
    let text = render_node(objects);
    lemma_joined_from_first(objects);
    assert(text[0] == '(');
    assert(text.subrange(1, 1 + tail(objects, 0).len() as int) =~= tail(objects, 0));
    lemma_reads_tail(text, 1, objects, 0, Seq::empty(), LastCharType::OpenParen);
    assert(Seq::<SyntaxModel>::empty() + syntax_of_each(objects).skip(0) =~= syntax_of_each(
        objects,
    ));
    lemma_written_objects_lower(objects);
}

} // verus!
