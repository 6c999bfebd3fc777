//! The fixed parts of the message of `InvalidExecutionTreeObjectConversion`.

use vstd::prelude::*;

verus! {

/// The text that `description` gives.
pub open spec fn description_text() -> Seq<char> {
    "Error converting from lisp execution tree object. The object is the incorrect type."@
}

/// The failure in one sentence.
pub fn description() -> (text: &'static str)
    ensures
        text@ == description_text(),
{
    "Error converting from lisp execution tree object. The object is the incorrect type."
}

/// The text that `display_1` gives.
pub open spec fn display_1_text() -> Seq<char> {
    "Error converting from lisp execution tree object. The expected type of the object is, '"@
}

/// The message up to `expected`.
pub fn display_1() -> (text: &'static str)
    ensures
        text@ == display_1_text(),
{
    "Error converting from lisp execution tree object. The expected type of the object is, '"
}

/// The text that `display_2` gives.
pub open spec fn display_2_text() -> Seq<char> {
    "', but the actual type of the object is, '"@
}

/// The message between `expected` and `actual`.
pub fn display_2() -> (text: &'static str)
    ensures
        text@ == display_2_text(),
{
    "', but the actual type of the object is, '"
}

/// The text that `display_3` gives.
pub open spec fn display_3_text() -> Seq<char> {
    "'."@
}

/// The message after `actual`.
pub fn display_3() -> (text: &'static str)
    ensures
        text@ == display_3_text(),
{
    "'."
}

} // verus!
