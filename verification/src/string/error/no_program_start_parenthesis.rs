//! The fixed parts of the message of `NoProgramStartParenthesis`.

use vstd::prelude::*;

verus! {

/// The text that `description` gives.
pub open spec fn description_text() -> Seq<char> {
    "Error parsing lisp. Program does not start with parenthesis."@
}

/// The failure in one sentence.
pub fn description() -> (text: &'static str)
    ensures
        text@ == description_text(),
{
    "Error parsing lisp. Program does not start with parenthesis."
}

/// The text that `display_1` gives.
pub open spec fn display_1_text() -> Seq<char> {
    "Error parsing lisp. Program does not start with parenthesis. Program text:\n"@
}

/// The message up to `text`.
pub fn display_1() -> (text: &'static str)
    ensures
        text@ == display_1_text(),
{
    "Error parsing lisp. Program does not start with parenthesis. Program text:\n"
}

} // verus!
