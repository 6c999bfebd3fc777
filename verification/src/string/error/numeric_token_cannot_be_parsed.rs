//! The fixed parts of the message of `NumericTokenCannotBeParsed`.

use vstd::prelude::*;

verus! {

/// The text that `description` gives.
pub open spec fn description_text() -> Seq<char> {
    "Error parsing lisp. Numeric token cannot be parsed."@
}

/// The failure in one sentence.
pub fn description() -> (text: &'static str)
    ensures
        text@ == description_text(),
{
    "Error parsing lisp. Numeric token cannot be parsed."
}

/// The text that `display_1` gives.
pub open spec fn display_1_text() -> Seq<char> {
    "Error parsing lisp. Numeric token, '"@
}

/// The message up to `token`.
pub fn display_1() -> (text: &'static str)
    ensures
        text@ == display_1_text(),
{
    "Error parsing lisp. Numeric token, '"
}

/// The text that `display_2` gives.
pub open spec fn display_2_text() -> Seq<char> {
    "', cannot be parsed as, '"@
}

/// The message between `token` and `expected_type`.
pub fn display_2() -> (text: &'static str)
    ensures
        text@ == display_2_text(),
{
    "', cannot be parsed as, '"
}

/// The text that `display_3` gives.
pub open spec fn display_3_text() -> Seq<char> {
    "'."@
}

/// The message after `expected_type`.
pub fn display_3() -> (text: &'static str)
    ensures
        text@ == display_3_text(),
{
    "'."
}

} // verus!
