//! Decimal numerals: how an integer is written, and which integer a text denotes.

use vstd::prelude::*;

verus! {

/// The character that writes the digit `digit`.
pub open spec fn digit_char(digit: nat) -> char
    recommends
        digit < 10,
{
    ((digit + 48) as u8) as char
}

/// The decimal numeral of `value`, without sign or leading zeros.
pub open spec fn decimal_digits(value: nat) -> Seq<char>
    decreases value,
{
    if value < 10 {
        seq![digit_char(value)]
    } else {
        decimal_digits(value / 10).push(digit_char(value % 10))
    }
}

/// The decimal numeral of `value`, with a leading `-` where it is negative.
pub open spec fn decimal_text(value: int) -> Seq<char> {
    if value < 0 {
        seq!['-'] + decimal_digits((-value) as nat)
    } else {
        decimal_digits(value as nat)
    }
}

pub open spec fn is_digit(character: char) -> bool {
    '0' <= character <= '9'
}

pub open spec fn all_digits(text: Seq<char>) -> bool {
    forall|i: int| 0 <= i < text.len() ==> is_digit(#[trigger] text[i])
}

/// The number that the digit `character` stands for.
pub open spec fn digit_value(character: char) -> nat
    recommends
        is_digit(character),
{
    (character as u32 - 48) as nat
}

/// The number that a run of digits denotes; leading zeros count for nothing.
pub open spec fn digits_value(digits: Seq<char>) -> nat
    decreases digits.len(),
{
    if digits.len() == 0 {
        0
    } else {
        digits_value(digits.drop_last()) * 10 + digit_value(digits.last())
    }
}

/// The integer that `text` denotes: an optional sign and then at least one
/// digit, nothing else. A `-` is a sign only where `signed` holds.
pub open spec fn integer_value(text: Seq<char>, signed: bool) -> Option<int> {
    let negative = signed && text.len() > 0 && text[0] == '-';
    let digits = if text.len() > 0 && (text[0] == '+' || negative) {
        text.drop_first()
    } else {
        text
    };
    if digits.len() == 0 || !all_digits(digits) {
        None
    } else if negative {
        Some(-(digits_value(digits) as int))
    } else {
        Some(digits_value(digits) as int)
    }
}

/// The integer that `text` denotes, where it lies between `least` and `greatest`.
pub open spec fn bounded_integer(text: Seq<char>, signed: bool, least: int, greatest: int) -> Option<int> {
    match integer_value(text, signed) {
        Some(value) => if least <= value <= greatest {
            Some(value)
        } else {
            None
        },
        None => None,
    }
}

/// Whether `character` is one of `0` to `9`.
pub fn digit(character: char) -> (answer: bool)
    ensures
        answer == is_digit(character),
{
    '0' <= character && character <= '9'
}

/// Appends the decimal numeral of `value` to `text`.
pub fn push_unsigned(text: &mut String, value: u64)
    ensures
        final(text)@ == old(text)@ + decimal_digits(value as nat),
    decreases value,
{
    if value >= 10 {
        push_unsigned(text, value / 10);
    }
    let last: u8 = (value % 10) as u8;
    text.push((last + 48) as char);
}

/// Appends the decimal numeral of `value` to `text`, with its sign where it is negative.
pub fn push_signed(text: &mut String, value: i64)
    ensures
        final(text)@ == old(text)@ + decimal_text(value as int),
{
    if value < 0 {
        text.push('-');
        let magnitude: u64 = (0 - value as i128) as u64;
        push_unsigned(text, magnitude);
    } else {
        push_unsigned(text, value as u64);
    }
}


/// A run of digits denotes at least what any of its beginnings denotes.
pub proof fn lemma_digits_value_grows(digits: Seq<char>, count: int)
    requires
        0 <= count <= digits.len(),
    ensures
        digits_value(digits.take(count)) <= digits_value(digits),
    decreases digits.len(),
{
    if count == digits.len() {
        assert(digits.take(count) =~= digits);
    } else {
        lemma_digits_value_grows(digits.drop_last(), count);
        assert(digits.drop_last().take(count) =~= digits.take(count));
    }
}

/// The integer that `characters[..to]` denotes, where it lies between `least`
/// and `greatest`.
pub fn parse_integer(
    characters: &Vec<char>,
    to: usize,
    signed: bool,
    least: i128,
    greatest: i128,
) -> (value: Option<i128>)
    requires
        to <= characters.len(),
        -0x1_0000_0000_0000_0000 <= least <= 0 <= greatest <= 0x1_0000_0000_0000_0000,
    ensures
        match bounded_integer(characters@.take(to as int), signed, least as int, greatest as int) {
            Some(denoted) => value == Some(denoted as i128),
            None => value is None,
        },
{
    let ghost text = characters@.take(to as int);
    let negative = signed && to > 0 && characters[0] == '-';
    let start: usize = if to > 0 && (characters[0] == '+' || negative) {
        1
    } else {
        0
    };
    let ghost digits = if start == 1 {
        text.drop_first()
    } else {
        text
    };
    if start == to {
        return None;
    }
    let limit: i128 = if negative {
        -least
    } else {
        greatest
    };
    let mut magnitude: i128 = 0;
    let mut index: usize = start;
    while index < to
        invariant
            start <= index <= to <= characters.len(),
            text == characters@.take(to as int),
            negative == (signed && text.len() > 0 && text[0] == '-'),
            digits == if text.len() > 0 && (text[0] == '+' || negative) {
                text.drop_first()
            } else {
                text
            },
            digits == text.skip(start as int),
            digits.len() == to - start,
            limit == if negative {
                -least
            } else {
                greatest as int
            },
            all_digits(digits.take(index - start)),
            magnitude == digits_value(digits.take(index - start)),
            0 <= magnitude <= limit <= 0x1_0000_0000_0000_0000,
        decreases to - index,
    {
        let character = characters[index];
        assert(character == digits[index - start]);
        if !digit(character) {
            assert(!is_digit(digits[index - start]));
            return None;
        }
        let last: i128 = (character as u32 - 48) as i128;
        proof {
            let longer = digits.take(index - start + 1);
            assert(longer.drop_last() =~= digits.take(index - start));
            assert(longer.last() == character);
            assert(all_digits(longer));
        }
        magnitude = magnitude * 10 + last;
        index += 1;
        if magnitude > limit {
            proof {
                if all_digits(digits) {
                    lemma_digits_value_grows(digits, index - start);
                }
            }
            return None;
        }
    }
    proof {
        assert(digits.take(index - start) =~= digits);
    }
    if negative {
        Some(-magnitude)
    } else {
        Some(magnitude)
    }
}


/// A numeral is made of digits, at least one, and denotes the number it was written for.
pub proof fn lemma_digits_read_back(value: nat)
    ensures
        decimal_digits(value).len() >= 1,
        all_digits(decimal_digits(value)),
        digits_value(decimal_digits(value)) == value,
    decreases value,
{
    let digits = decimal_digits(value);
    if value < 10 {
        assert(digits.drop_last() =~= Seq::<char>::empty());
        assert(digits_value(digits.drop_last()) == 0);
    } else {
        lemma_digits_read_back(value / 10);
        assert(digits.drop_last() =~= decimal_digits(value / 10));
        assert(digits.last() == digit_char(value % 10));
        assert forall|i: int| 0 <= i < digits.len() implies is_digit(#[trigger] digits[i]) by {
            if i < digits.len() - 1 {
                assert(digits[i] == decimal_digits(value / 10)[i]);
            }
        }
    }
}

/// A numeral with its sign denotes the integer it was written for: a negative
/// one where the kind of number is signed.
pub proof fn lemma_decimal_text_reads_back(value: int, signed: bool)
    requires
        value >= 0 || signed,
    ensures
        integer_value(decimal_text(value), signed) == Some(value),
        decimal_text(value).len() >= 1,
        is_digit(decimal_text(value)[0]) || (decimal_text(value)[0] == '-' && decimal_text(
            value,
        ).len() > 1),
{
    let text = decimal_text(value);
    if value < 0 {
        lemma_digits_read_back((-value) as nat);
        assert(text.drop_first() =~= decimal_digits((-value) as nat));
    } else {
        lemma_digits_read_back(value as nat);
        assert(is_digit(text[0]));
    }
}

} // verus!
