//! An object asked for as a kind that it is not.

use crate::error::error_model::ErrorModel;
use crate::string::error::invalid_execution_tree_object_conversion as strings;
use vstd::prelude::*;
use vstd::string::StringExecFns;

verus! {

/// An object asked for as a kind that it is not.
#[derive(Debug)]
pub struct InvalidExecutionTreeObjectConversion {
    /// The kind that the object has.
    pub actual: String,
    /// The kind that was asked for.
    pub expected: String,
}

impl View for InvalidExecutionTreeObjectConversion {
    type V = ErrorModel;

    open spec fn view(&self) -> ErrorModel {
        ErrorModel::InvalidExecutionTreeObjectConversion {
            actual: self.actual@,
            expected: self.expected@,
        }
    }
}

impl InvalidExecutionTreeObjectConversion {
    /// The failure that holds what is given.
    pub fn new(actual: String, expected: String) -> (error: Self)
        ensures
            error@ == (ErrorModel::InvalidExecutionTreeObjectConversion {
                actual: actual@,
                expected: expected@,
            }),
    {
        InvalidExecutionTreeObjectConversion { actual, expected }
    }

    /// The message: what failed, and on what.
    pub open spec fn message(&self) -> Seq<char> {
        strings::display_1_text()
            + self.expected@
            + strings::display_2_text()
            + self.actual@
            + strings::display_3_text()
    }

    /// The failure in one sentence, whatever it failed on.
    pub fn description(&self) -> (text: &'static str)
        ensures
            text@ == strings::description_text(),
    {
        strings::description()
    }

    /// The message as a string.
    pub fn to_string(&self) -> (text: String)
        ensures
            text@ == self.message(),
    {
        let mut text = String::from_str(strings::display_1());
        text.append(self.expected.as_str());
        text.append(strings::display_2());
        text.append(self.actual.as_str());
        text.append(strings::display_3());
        text
    }
}

} // verus!
