//! The fixed parts of the message of `BeginningStringInWord`.

use vstd::prelude::*;

verus! {

/// The text that `description` gives.
pub open spec fn description_text() -> Seq<char> {
    "Error parsing lisp. Attempted to begin a string while parsing another word."@
}

/// The failure in one sentence.
pub fn description() -> (text: &'static str)
    ensures
        text@ == description_text(),
{
    "Error parsing lisp. Attempted to begin a string while parsing another word."
}

/// The text that `display_1` gives.
pub open spec fn display_1_text() -> Seq<char> {
    "Error parsing lisp. Attempted to begin a string while parsing another word. The character, '"@
}

/// The message up to `character`.
pub fn display_1() -> (text: &'static str)
    ensures
        text@ == display_1_text(),
{
    "Error parsing lisp. Attempted to begin a string while parsing another word. The character, '"
}

/// The text that `display_2` gives.
pub open spec fn display_2_text() -> Seq<char> {
    "', was found at index, '"@
}

/// The message between `character` and `index`.
pub fn display_2() -> (text: &'static str)
    ensures
        text@ == display_2_text(),
{
    "', was found at index, '"
}

/// The text that `display_3` gives.
pub open spec fn display_3_text() -> Seq<char> {
    "' with no separation from the previous word."@
}

/// The message after `index`.
pub fn display_3() -> (text: &'static str)
    ensures
        text@ == display_3_text(),
{
    "' with no separation from the previous word."
}

} // verus!
