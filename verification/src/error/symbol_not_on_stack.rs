//! A symbol that no frame binds.

use crate::error::error_model::ErrorModel;
use crate::string::error::symbol_not_on_stack as strings;
use vstd::prelude::*;
use vstd::string::StringExecFns;

verus! {

/// A symbol that no frame binds.
#[derive(Debug)]
pub struct SymbolNotOnStack {
    /// The symbol.
    pub symbol: String,
}

impl View for SymbolNotOnStack {
    type V = ErrorModel;

    open spec fn view(&self) -> ErrorModel {
        ErrorModel::SymbolNotOnStack {
            symbol: self.symbol@,
        }
    }
}

impl SymbolNotOnStack {
    /// The failure that holds what is given.
    pub fn new(symbol: String) -> (error: Self)
        ensures
            error@ == (ErrorModel::SymbolNotOnStack {
                symbol: symbol@,
            }),
    {
        SymbolNotOnStack { symbol }
    }

    /// The message: what failed, and on what.
    pub open spec fn message(&self) -> Seq<char> {
        strings::display_1_text()
            + self.symbol@
            + strings::display_2_text()
    }

    /// The failure in one sentence, whatever it failed on.
    pub fn description(&self) -> (text: &'static str)
        ensures
            text@ == strings::description_text(),
    {
        strings::description()
    }

    /// The message as a string.
    pub fn to_string(&self) -> (text: String)
        ensures
            text@ == self.message(),
    {
        let mut text = String::from_str(strings::display_1());
        text.append(self.symbol.as_str());
        text.append(strings::display_2());
        text
    }
}

} // verus!
