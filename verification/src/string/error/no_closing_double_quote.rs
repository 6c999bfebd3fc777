//! The fixed parts of the message of `NoClosingDoubleQuote`.

use vstd::prelude::*;

verus! {

/// The text that `description` gives.
pub open spec fn description_text() -> Seq<char> {
    "Error parsing lisp. No closing double-quote found."@
}

/// The failure in one sentence.
pub fn description() -> (text: &'static str)
    ensures
        text@ == description_text(),
{
    "Error parsing lisp. No closing double-quote found."
}

/// The text that `display_1` gives.
pub open spec fn display_1_text() -> Seq<char> {
    "Error parsing lisp. No closing double-quote found for program:\n"@
}

/// The message up to `text`.
pub fn display_1() -> (text: &'static str)
    ensures
        text@ == display_1_text(),
{
    "Error parsing lisp. No closing double-quote found for program:\n"
}

} // verus!
