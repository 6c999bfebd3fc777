//! Conversions between strings and character vectors, and character classes.

use vstd::prelude::*;

verus! {

pub assume_specification[ std::string::String::push ](
    written: &mut std::string::String,
    character: char,
)
    ensures
        final(written)@ == old(written)@.push(character),
;

/// The characters that separate tokens: those that Unicode classes as White_Space.
pub open spec fn is_white_space(character: char) -> bool {
    let code = character as u32;
    ||| 0x09 <= code <= 0x0D
    ||| code == 0x20
    ||| code == 0x85
    ||| code == 0xA0
    ||| code == 0x1680
    ||| 0x2000 <= code <= 0x200A
    ||| code == 0x2028
    ||| code == 0x2029
    ||| code == 0x202F
    ||| code == 0x205F
    ||| code == 0x3000
}

/// Whether `character` separates tokens.
pub fn white_space(character: char) -> (answer: bool)
    ensures
        answer == is_white_space(character),
{
    let code: u32 = character as u32;
    (0x09 <= code && code <= 0x0D) || code == 0x20 || code == 0x85 || code == 0xA0 || code
        == 0x1680 || (0x2000 <= code && code <= 0x200A) || code == 0x2028 || code == 0x2029 || code
        == 0x202F || code == 0x205F || code == 0x3000
}

/// The characters of `text`, in order.
pub fn to_chars(text: &str) -> (characters: Vec<char>)
    ensures
        characters@ == text@,
{
    let mut characters: Vec<char> = Vec::new();
    for character in rest: text.chars()
        invariant
            rest.seq() == text@,
            characters@ == text@.take(rest.index() as int),
    {
        characters.push(character);
    }
    characters
}

/// Appends `characters[from..to]` to `text`.
pub fn push_chars(text: &mut String, characters: &Vec<char>, from: usize, to: usize)
    requires
        from <= to <= characters.len(),
    ensures
        final(text)@ == old(text)@ + characters@.subrange(from as int, to as int),
{
    let mut index: usize = from;
    while index < to
        invariant
            from <= index <= to <= characters.len(),
            text@ == old(text)@ + characters@.subrange(from as int, index as int),
        decreases to - index,
    {
        text.push(characters[index]);
        index += 1;
        assert(characters@.subrange(from as int, index as int) == characters@.subrange(
            from as int,
            index - 1,
        ).push(characters@[index - 1]));
    }
}

/// The string made of `characters[from..to]`.
pub fn from_chars(characters: &Vec<char>, from: usize, to: usize) -> (text: String)
    requires
        from <= to <= characters.len(),
    ensures
        text@ == characters@.subrange(from as int, to as int),
{
    let mut text = String::new();
    push_chars(&mut text, characters, from, to);
    text
}


/// Whether `text` is longer than `suffix` and ends with it.
pub open spec fn has_suffix(text: Seq<char>, suffix: Seq<char>) -> bool {
    text.len() > suffix.len() && text.skip(text.len() - suffix.len()) == suffix
}

/// Whether `characters` spell `text`.
pub fn spells(characters: &Vec<char>, text: &str) -> (answer: bool)
    ensures
        answer == (characters@ == text@),
{
    let length = text.unicode_len();
    if characters.len() != length {
        return false;
    }
    let mut index: usize = 0;
    while index < length
        invariant
            index <= length == text@.len(),
            characters.len() == length,
            forall|i: int| 0 <= i < index ==> characters@[i] == text@[i],
        decreases length - index,
    {
        if characters[index] != text.get_char(index) {
            return false;
        }
        index += 1;
    }
    assert(characters@ =~= text@);
    true
}

/// Whether `characters` are more than `suffix` and end with it.
pub fn ends_with(characters: &Vec<char>, suffix: &str) -> (answer: bool)
    ensures
        answer == has_suffix(characters@, suffix@),
{
    let length = suffix.unicode_len();
    if characters.len() <= length {
        return false;
    }
    let start: usize = characters.len() - length;
    let mut index: usize = 0;
    while index < length
        invariant
            index <= length == suffix@.len(),
            start == characters.len() - length,
            forall|i: int| 0 <= i < index ==> characters@[start + i] == suffix@[i],
        decreases length - index,
    {
        if characters[start + index] != suffix.get_char(index) {
            assert(characters@.skip(start as int)[index as int] != suffix@[index as int]);
            return false;
        }
        index += 1;
    }
    assert(characters@.skip(start as int) =~= suffix@);
    true
}

/// Whether `character` is among `characters`.
pub fn contains(characters: &Vec<char>, character: char) -> (answer: bool)
    ensures
        answer == characters@.contains(character),
{
    let mut index: usize = 0;
    while index < characters.len()
        invariant
            index <= characters.len(),
            forall|i: int| 0 <= i < index ==> characters@[i] != character,
        decreases characters.len() - index,
    {
        if characters[index] == character {
            return true;
        }
        index += 1;
    }
    false
}


/// The first `count` of `characters`.
pub fn first_chars(characters: &Vec<char>, count: usize) -> (first: Vec<char>)
    requires
        count <= characters.len(),
    ensures
        first@ == characters@.take(count as int),
{
    let mut first: Vec<char> = Vec::with_capacity(count);
    let mut index: usize = 0;
    while index < count
        invariant
            index <= count <= characters.len(),
            first@ == characters@.take(index as int),
        decreases count - index,
    {
        first.push(characters[index]);
        index += 1;
        assert(characters@.take(index as int) =~= characters@.take(index - 1).push(
            characters@[index - 1],
        ));
    }
    first
}

} // verus!
