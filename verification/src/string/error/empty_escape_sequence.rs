//! The fixed parts of the message of `EmptyEscapeSequence`.

use vstd::prelude::*;

verus! {

/// The text that `description` gives.
pub open spec fn description_text() -> Seq<char> {
    "Error escaping character. A character must follow a, '\\'."@
}

/// The failure in one sentence.
pub fn description() -> (text: &'static str)
    ensures
        text@ == description_text(),
{
    "Error escaping character. A character must follow a, '\\'."
}

/// The text that `display_1` gives.
pub open spec fn display_1_text() -> Seq<char> {
    "Error escaping character. A character must follow a, '\\'."@
}

/// The whole message.
pub fn display_1() -> (text: &'static str)
    ensures
        text@ == display_1_text(),
{
    "Error escaping character. A character must follow a, '\\'."
}

} // verus!
