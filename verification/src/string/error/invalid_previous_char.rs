//! The fixed parts of the message of `InvalidPreviousChar`.

use vstd::prelude::*;

verus! {

/// The text that `description` gives.
pub open spec fn description_text() -> Seq<char> {
    "Error parsing lisp. The current character cannot follow the previous character."@
}

/// The failure in one sentence.
pub fn description() -> (text: &'static str)
    ensures
        text@ == description_text(),
{
    "Error parsing lisp. The current character cannot follow the previous character."
}

/// The text that `display_1` gives.
pub open spec fn display_1_text() -> Seq<char> {
    "Error parsing lisp. The current character, '"@
}

/// The message up to `character`.
pub fn display_1() -> (text: &'static str)
    ensures
        text@ == display_1_text(),
{
    "Error parsing lisp. The current character, '"
}

/// The text that `display_2` gives.
pub open spec fn display_2_text() -> Seq<char> {
    "', at index, '"@
}

/// The message between `character` and `index`.
pub fn display_2() -> (text: &'static str)
    ensures
        text@ == display_2_text(),
{
    "', at index, '"
}

/// The text that `display_3` gives.
pub open spec fn display_3_text() -> Seq<char> {
    "', cannot follow the previous character which is type, '"@
}

/// The message between `index` and `previous_char_type`.
pub fn display_3() -> (text: &'static str)
    ensures
        text@ == display_3_text(),
{
    "', cannot follow the previous character which is type, '"
}

/// The text that `display_4` gives.
pub open spec fn display_4_text() -> Seq<char> {
    "'."@
}

/// The message after `previous_char_type`.
pub fn display_4() -> (text: &'static str)
    ensures
        text@ == display_4_text(),
{
    "'."
}

} // verus!
