//! The fixed parts of the message of `SymbolNotOnStack`.

use vstd::prelude::*;

verus! {

/// The text that `description` gives.
pub open spec fn description_text() -> Seq<char> {
    "Error locating symbol. The symbol cannot be found on the stack."@
}

/// The failure in one sentence.
pub fn description() -> (text: &'static str)
    ensures
        text@ == description_text(),
{
    "Error locating symbol. The symbol cannot be found on the stack."
}

/// The text that `display_1` gives.
pub open spec fn display_1_text() -> Seq<char> {
    "Error locating symbol. The symbol, '"@
}

/// The message up to `symbol`.
pub fn display_1() -> (text: &'static str)
    ensures
        text@ == display_1_text(),
{
    "Error locating symbol. The symbol, '"
}

/// The text that `display_2` gives.
pub open spec fn display_2_text() -> Seq<char> {
    "', cannot be found on the stack."@
}

/// The message after `symbol`.
pub fn display_2() -> (text: &'static str)
    ensures
        text@ == display_2_text(),
{
    "', cannot be found on the stack."
}

} // verus!
