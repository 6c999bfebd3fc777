//! The fixed parts of the message of `EmptyStringDetected`.

use vstd::prelude::*;

verus! {

/// The text that `description` gives.
pub open spec fn description_text() -> Seq<char> {
    "Error converting string to lisp object. The string is empty."@
}

/// The failure in one sentence.
pub fn description() -> (text: &'static str)
    ensures
        text@ == description_text(),
{
    "Error converting string to lisp object. The string is empty."
}

/// The text that `display_1` gives.
pub open spec fn display_1_text() -> Seq<char> {
    "Error converting string to lisp object. The string, '"@
}

/// The message up to `contents`.
pub fn display_1() -> (text: &'static str)
    ensures
        text@ == display_1_text(),
{
    "Error converting string to lisp object. The string, '"
}

/// The text that `display_2` gives.
pub open spec fn display_2_text() -> Seq<char> {
    "', is empty."@
}

/// The message after `contents`.
pub fn display_2() -> (text: &'static str)
    ensures
        text@ == display_2_text(),
{
    "', is empty."
}

} // verus!
