//! The fixed parts of the message of `InvalidEscapeSequence`.

use vstd::prelude::*;

verus! {

/// The text that `description` gives.
pub open spec fn description_text() -> Seq<char> {
    "Error escaping character. The character cannot be escaped."@
}

/// The failure in one sentence.
pub fn description() -> (text: &'static str)
    ensures
        text@ == description_text(),
{
    "Error escaping character. The character cannot be escaped."
}

/// The text that `display_1` gives.
pub open spec fn display_1_text() -> Seq<char> {
    "Error escaping character. The character, '"@
}

/// The message up to `escaped_character`.
pub fn display_1() -> (text: &'static str)
    ensures
        text@ == display_1_text(),
{
    "Error escaping character. The character, '"
}

/// The text that `display_2` gives.
pub open spec fn display_2_text() -> Seq<char> {
    "', cannot be escaped."@
}

/// The message after `escaped_character`.
pub fn display_2() -> (text: &'static str)
    ensures
        text@ == display_2_text(),
{
    "', cannot be escaped."
}

} // verus!
