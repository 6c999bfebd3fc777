//! The fixed parts of the message of `NoCharacterInSingleQuotes`.

use vstd::prelude::*;

verus! {

/// The text that `description` gives.
pub open spec fn description_text() -> Seq<char> {
    "Error parsing lisp. No character found in single quotes in execution tree."@
}

/// The failure in one sentence.
pub fn description() -> (text: &'static str)
    ensures
        text@ == description_text(),
{
    "Error parsing lisp. No character found in single quotes in execution tree."
}

/// The text that `display_1` gives.
pub open spec fn display_1_text() -> Seq<char> {
    "Error parsing lisp. No character found in single quotes for token, '"@
}

/// The message up to `token`.
pub fn display_1() -> (text: &'static str)
    ensures
        text@ == display_1_text(),
{
    "Error parsing lisp. No character found in single quotes for token, '"
}

/// The text that `display_2` gives.
pub open spec fn display_2_text() -> Seq<char> {
    "', in execution tree."@
}

/// The message after `token`.
pub fn display_2() -> (text: &'static str)
    ensures
        text@ == display_2_text(),
{
    "', in execution tree."
}

} // verus!
