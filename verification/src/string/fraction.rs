//! The literals of numbers with a fraction: which texts are such a literal.

use crate::string::decimal::digit;
use crate::string::decimal::is_digit;
use vstd::prelude::*;
use vstd::string::StrSliceExecFns;

verus! {

/// Where the run of digits that starts at `from` ends.
pub open spec fn digits_end(text: Seq<char>, from: int) -> int
    decreases text.len() - from,
{
    if 0 <= from < text.len() && is_digit(text[from]) {
        digits_end(text, from + 1)
    } else {
        from
    }
}

/// A capital letter of the Latin alphabet as a small one, any other character as it is.
pub open spec fn small(character: char) -> char {
    if 'A' <= character <= 'Z' {
        ((character as u32 + 32) as u8) as char
    } else {
        character
    }
}

/// Whether `text` from `from` on is `word`, capital letters taken for small ones.
pub open spec fn is_word(text: Seq<char>, from: int, word: Seq<char>) -> bool {
    &&& text.len() - from == word.len()
    &&& forall|i: int| 0 <= i < word.len() ==> small(#[trigger] text[from + i]) == word[i]
}

/// Whether an exponent stands at `at` and ends the text: `e` or `E`, an
/// optional sign, at least one digit.
pub open spec fn is_exponent(text: Seq<char>, at: int) -> bool {
    let digits = if at + 1 < text.len() && (text[at + 1] == '+' || text[at + 1] == '-') {
        at + 2
    } else {
        at + 1
    };
    &&& 0 <= at < text.len()
    &&& (text[at] == 'e' || text[at] == 'E')
    &&& digits < text.len()
    &&& digits_end(text, digits) == text.len()
}

/// Whether `text` from `from` on is digits, with or without a point among or
/// beside them, at least one digit in all, and then an exponent or nothing.
pub open spec fn is_number(text: Seq<char>, from: int) -> bool {
    let whole_end = digits_end(text, from);
    let point = whole_end < text.len() && text[whole_end] == '.';
    let part = if point {
        whole_end + 1
    } else {
        whole_end
    };
    let part_end = digits_end(text, part);
    &&& (whole_end - from) + (part_end - part) >= 1
    &&& (part_end == text.len() || is_exponent(text, part_end))
}

/// Whether `text` is the literal of a number with a fraction: an optional
/// sign, and then a number or one of the words `inf`, `infinity` and `nan`.
pub open spec fn is_fraction_text(text: Seq<char>) -> bool {
    let from: int = if text.len() > 0 && (text[0] == '+' || text[0] == '-') {
        1
    } else {
        0
    };
    ||| is_number(text, from)
    ||| is_word(text, from, "inf"@)
    ||| is_word(text, from, "infinity"@)
    ||| is_word(text, from, "nan"@)
}

fn skip_digits(characters: &Vec<char>, from: usize) -> (end: usize)
    requires
        from <= characters.len(),
    ensures
        from <= end <= characters.len(),
        end == digits_end(characters@, from as int),
{
    let mut end: usize = from;
    while end < characters.len() && digit(characters[end])
        invariant
            from <= end <= characters.len(),
            digits_end(characters@, from as int) == digits_end(characters@, end as int),
        decreases characters.len() - end,
    {
        end += 1;
    }
    end
}

fn small_letter(character: char) -> (letter: char)
    ensures
        letter == small(character),
{
    if 'A' <= character && character <= 'Z' {
        ((character as u32 + 32) as u8) as char
    } else {
        character
    }
}

fn word_at(characters: &Vec<char>, from: usize, word: &str) -> (answer: bool)
    requires
        from <= characters.len(),
    ensures
        answer == is_word(characters@, from as int, word@),
{
    let length = word.unicode_len();
    if characters.len() - from != length {
        return false;
    }
    let mut index: usize = 0;
    while index < length
        invariant
            index <= length == word@.len(),
            characters.len() - from == length,
            forall|i: int| 0 <= i < index ==> small(#[trigger] characters@[from + i]) == word@[i],
        decreases length - index,
    {
        if small_letter(characters[from + index]) != word.get_char(index) {
            return false;
        }
        index += 1;
    }
    true
}

fn exponent_at(characters: &Vec<char>, at: usize) -> (answer: bool)
    requires
        at < characters.len(),
    ensures
        answer == is_exponent(characters@, at as int),
{
    if characters[at] != 'e' && characters[at] != 'E' {
        return false;
    }
    let digits: usize = if at + 1 < characters.len() && (characters[at + 1] == '+'
        || characters[at + 1] == '-') {
        at + 2
    } else {
        at + 1
    };
    digits < characters.len() && skip_digits(characters, digits) == characters.len()
}

fn number_at(characters: &Vec<char>, from: usize) -> (answer: bool)
    requires
        from <= characters.len(),
    ensures
        answer == is_number(characters@, from as int),
{
    let whole_end = skip_digits(characters, from);
    let point = whole_end < characters.len() && characters[whole_end] == '.';
    let part: usize = if point {
        whole_end + 1
    } else {
        whole_end
    };
    let part_end = skip_digits(characters, part);
    if (whole_end - from) + (part_end - part) < 1 {
        return false;
    }
    part_end == characters.len() || exponent_at(characters, part_end)
}

/// Whether `characters` are the literal of a number with a fraction.
pub fn fraction_text(characters: &Vec<char>) -> (answer: bool)
    ensures
        answer == is_fraction_text(characters@),
{
    let from: usize = if characters.len() > 0 && (characters[0] == '+' || characters[0] == '-') {
        1
    } else {
        0
    };
    number_at(characters, from) || word_at(characters, from, "inf") || word_at(
        characters,
        from,
        "infinity",
    ) || word_at(characters, from, "nan")
}

} // verus!
