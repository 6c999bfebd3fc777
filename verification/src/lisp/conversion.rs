//! Taking the value out of an object, where the object is of the kind asked for.
//!
//! Each conversion states on `from` itself what it gives. A failure holds
//! strings, so no value of the model equals it, and `from_spec` states nothing.

use crate::error::ErrorModel;
use crate::error::InvalidExecutionTreeObjectConversion;
use crate::error::LispError;
use crate::lisp::execution_tree_node::ExecutionTreeNode;
use crate::lisp::execution_tree_object::ExecutionTreeObject;
use crate::lisp::object_model::kind_name;
use crate::lisp::object_model::ObjectModel;
use vstd::prelude::*;
use vstd::std_specs::convert::FromSpecImpl;
use vstd::string::StringExecFns;

verus! {

/// The failure for an object that is asked for as the kind named `expected`.
pub open spec fn wrong_kind(object: ObjectModel, expected: Seq<char>) -> ErrorModel {
    ErrorModel::InvalidExecutionTreeObjectConversion {
        actual: kind_name(object),
        expected: expected,
    }
}

fn mismatch(object: &ExecutionTreeObject, expected: &str) -> (error: LispError)
    ensures
        error@ == wrong_kind(object@, expected@),
{
    LispError::InvalidExecutionTreeObjectConversion(
        InvalidExecutionTreeObjectConversion::new(
            String::from_str(object.enum_to_string()),
            String::from_str(expected),
        ),
    )
}

impl From<ExecutionTreeObject> for Result<bool, LispError> {
    /// The value of an object of kind `Bool`.
    fn from(object: ExecutionTreeObject) -> (result: Result<bool, LispError>)
        ensures
            match object@ {
                ObjectModel::Bool(value) => result == Ok::<bool, LispError>(value),
                _ => result matches Err(error) && error@ == wrong_kind(
                    object@,
                    "ExecutionTreeObject::Bool"@,
                ),
            },
    {
        match object {
            ExecutionTreeObject::Bool(result) => Ok(result),
            object => Err(mismatch(&object, ExecutionTreeObject::bool_str())),
        }
    }
}

impl FromSpecImpl<ExecutionTreeObject> for Result<bool, LispError> {
    open spec fn obeys_from_spec() -> bool {
        false
    }

    open spec fn from_spec(object: ExecutionTreeObject) -> Self {
        arbitrary()
    }
}

impl From<ExecutionTreeObject> for Result<char, LispError> {
    /// The value of an object of kind `Char`.
    fn from(object: ExecutionTreeObject) -> (result: Result<char, LispError>)
        ensures
            match object@ {
                ObjectModel::Char(value) => result == Ok::<char, LispError>(value),
                _ => result matches Err(error) && error@ == wrong_kind(
                    object@,
                    "ExecutionTreeObject::Char"@,
                ),
            },
    {
        match object {
            ExecutionTreeObject::Char(result) => Ok(result),
            object => Err(mismatch(&object, ExecutionTreeObject::char_str())),
        }
    }
}

impl FromSpecImpl<ExecutionTreeObject> for Result<char, LispError> {
    open spec fn obeys_from_spec() -> bool {
        false
    }

    open spec fn from_spec(object: ExecutionTreeObject) -> Self {
        arbitrary()
    }
}

impl From<ExecutionTreeObject> for Result<i8, LispError> {
    /// The value of an object of kind `I8`.
    fn from(object: ExecutionTreeObject) -> (result: Result<i8, LispError>)
        ensures
            match object@ {
                ObjectModel::I8(value) => result == Ok::<i8, LispError>(value),
                _ => result matches Err(error) && error@ == wrong_kind(
                    object@,
                    "ExecutionTreeObject::I8"@,
                ),
            },
    {
        match object {
            ExecutionTreeObject::I8(result) => Ok(result),
            object => Err(mismatch(&object, ExecutionTreeObject::i8_str())),
        }
    }
}

impl FromSpecImpl<ExecutionTreeObject> for Result<i8, LispError> {
    open spec fn obeys_from_spec() -> bool {
        false
    }

    open spec fn from_spec(object: ExecutionTreeObject) -> Self {
        arbitrary()
    }
}

impl From<ExecutionTreeObject> for Result<i16, LispError> {
    /// The value of an object of kind `I16`.
    fn from(object: ExecutionTreeObject) -> (result: Result<i16, LispError>)
        ensures
            match object@ {
                ObjectModel::I16(value) => result == Ok::<i16, LispError>(value),
                _ => result matches Err(error) && error@ == wrong_kind(
                    object@,
                    "ExecutionTreeObject::I16"@,
                ),
            },
    {
        match object {
            ExecutionTreeObject::I16(result) => Ok(result),
            object => Err(mismatch(&object, ExecutionTreeObject::i16_str())),
        }
    }
}

impl FromSpecImpl<ExecutionTreeObject> for Result<i16, LispError> {
    open spec fn obeys_from_spec() -> bool {
        false
    }

    open spec fn from_spec(object: ExecutionTreeObject) -> Self {
        arbitrary()
    }
}

impl From<ExecutionTreeObject> for Result<i32, LispError> {
    /// The value of an object of kind `I32`.
    fn from(object: ExecutionTreeObject) -> (result: Result<i32, LispError>)
        ensures
            match object@ {
                ObjectModel::I32(value) => result == Ok::<i32, LispError>(value),
                _ => result matches Err(error) && error@ == wrong_kind(
                    object@,
                    "ExecutionTreeObject::I32"@,
                ),
            },
    {
        match object {
            ExecutionTreeObject::I32(result) => Ok(result),
            object => Err(mismatch(&object, ExecutionTreeObject::i32_str())),
        }
    }
}

impl FromSpecImpl<ExecutionTreeObject> for Result<i32, LispError> {
    open spec fn obeys_from_spec() -> bool {
        false
    }

    open spec fn from_spec(object: ExecutionTreeObject) -> Self {
        arbitrary()
    }
}

impl From<ExecutionTreeObject> for Result<i64, LispError> {
    /// The value of an object of kind `I64`.
    fn from(object: ExecutionTreeObject) -> (result: Result<i64, LispError>)
        ensures
            match object@ {
                ObjectModel::I64(value) => result == Ok::<i64, LispError>(value),
                _ => result matches Err(error) && error@ == wrong_kind(
                    object@,
                    "ExecutionTreeObject::I64"@,
                ),
            },
    {
        match object {
            ExecutionTreeObject::I64(result) => Ok(result),
            object => Err(mismatch(&object, ExecutionTreeObject::i64_str())),
        }
    }
}

impl FromSpecImpl<ExecutionTreeObject> for Result<i64, LispError> {
    open spec fn obeys_from_spec() -> bool {
        false
    }

    open spec fn from_spec(object: ExecutionTreeObject) -> Self {
        arbitrary()
    }
}

impl From<ExecutionTreeObject> for Result<isize, LispError> {
    /// The value of an object of kind `ISize`.
    fn from(object: ExecutionTreeObject) -> (result: Result<isize, LispError>)
        ensures
            match object@ {
                ObjectModel::ISize(value) => result == Ok::<isize, LispError>(value),
                _ => result matches Err(error) && error@ == wrong_kind(
                    object@,
                    "ExecutionTreeObject::ISize"@,
                ),
            },
    {
        match object {
            ExecutionTreeObject::ISize(result) => Ok(result),
            object => Err(mismatch(&object, ExecutionTreeObject::isize_str())),
        }
    }
}

impl FromSpecImpl<ExecutionTreeObject> for Result<isize, LispError> {
    open spec fn obeys_from_spec() -> bool {
        false
    }

    open spec fn from_spec(object: ExecutionTreeObject) -> Self {
        arbitrary()
    }
}

impl From<ExecutionTreeObject> for Result<u8, LispError> {
    /// The value of an object of kind `U8`.
    fn from(object: ExecutionTreeObject) -> (result: Result<u8, LispError>)
        ensures
            match object@ {
                ObjectModel::U8(value) => result == Ok::<u8, LispError>(value),
                _ => result matches Err(error) && error@ == wrong_kind(
                    object@,
                    "ExecutionTreeObject::U8"@,
                ),
            },
    {
        match object {
            ExecutionTreeObject::U8(result) => Ok(result),
            object => Err(mismatch(&object, ExecutionTreeObject::u8_str())),
        }
    }
}

impl FromSpecImpl<ExecutionTreeObject> for Result<u8, LispError> {
    open spec fn obeys_from_spec() -> bool {
        false
    }

    open spec fn from_spec(object: ExecutionTreeObject) -> Self {
        arbitrary()
    }
}

impl From<ExecutionTreeObject> for Result<u16, LispError> {
    /// The value of an object of kind `U16`.
    fn from(object: ExecutionTreeObject) -> (result: Result<u16, LispError>)
        ensures
            match object@ {
                ObjectModel::U16(value) => result == Ok::<u16, LispError>(value),
                _ => result matches Err(error) && error@ == wrong_kind(
                    object@,
                    "ExecutionTreeObject::U16"@,
                ),
            },
    {
        match object {
            ExecutionTreeObject::U16(result) => Ok(result),
            object => Err(mismatch(&object, ExecutionTreeObject::u16_str())),
        }
    }
}

impl FromSpecImpl<ExecutionTreeObject> for Result<u16, LispError> {
    open spec fn obeys_from_spec() -> bool {
        false
    }

    open spec fn from_spec(object: ExecutionTreeObject) -> Self {
        arbitrary()
    }
}

impl From<ExecutionTreeObject> for Result<u32, LispError> {
    /// The value of an object of kind `U32`.
    fn from(object: ExecutionTreeObject) -> (result: Result<u32, LispError>)
        ensures
            match object@ {
                ObjectModel::U32(value) => result == Ok::<u32, LispError>(value),
                _ => result matches Err(error) && error@ == wrong_kind(
                    object@,
                    "ExecutionTreeObject::U32"@,
                ),
            },
    {
        match object {
            ExecutionTreeObject::U32(result) => Ok(result),
            object => Err(mismatch(&object, ExecutionTreeObject::u32_str())),
        }
    }
}

impl FromSpecImpl<ExecutionTreeObject> for Result<u32, LispError> {
    open spec fn obeys_from_spec() -> bool {
        false
    }

    open spec fn from_spec(object: ExecutionTreeObject) -> Self {
        arbitrary()
    }
}

impl From<ExecutionTreeObject> for Result<u64, LispError> {
    /// The value of an object of kind `U64`.
    fn from(object: ExecutionTreeObject) -> (result: Result<u64, LispError>)
        ensures
            match object@ {
                ObjectModel::U64(value) => result == Ok::<u64, LispError>(value),
                _ => result matches Err(error) && error@ == wrong_kind(
                    object@,
                    "ExecutionTreeObject::U64"@,
                ),
            },
    {
        match object {
            ExecutionTreeObject::U64(result) => Ok(result),
            object => Err(mismatch(&object, ExecutionTreeObject::u64_str())),
        }
    }
}

impl FromSpecImpl<ExecutionTreeObject> for Result<u64, LispError> {
    open spec fn obeys_from_spec() -> bool {
        false
    }

    open spec fn from_spec(object: ExecutionTreeObject) -> Self {
        arbitrary()
    }
}

impl From<ExecutionTreeObject> for Result<usize, LispError> {
    /// The value of an object of kind `USize`.
    fn from(object: ExecutionTreeObject) -> (result: Result<usize, LispError>)
        ensures
            match object@ {
                ObjectModel::USize(value) => result == Ok::<usize, LispError>(value),
                _ => result matches Err(error) && error@ == wrong_kind(
                    object@,
                    "ExecutionTreeObject::USize"@,
                ),
            },
    {
        match object {
            ExecutionTreeObject::USize(result) => Ok(result),
            object => Err(mismatch(&object, ExecutionTreeObject::usize_str())),
        }
    }
}

impl FromSpecImpl<ExecutionTreeObject> for Result<usize, LispError> {
    open spec fn obeys_from_spec() -> bool {
        false
    }

    open spec fn from_spec(object: ExecutionTreeObject) -> Self {
        arbitrary()
    }
}

impl From<ExecutionTreeObject> for Result<ExecutionTreeNode, LispError> {
    /// The node of an object of kind `Node`.
    fn from(object: ExecutionTreeObject) -> (result: Result<ExecutionTreeNode, LispError>)
        ensures
            match object@ {
                ObjectModel::Node(objects) => result matches Ok(node) && node@ == objects,
                _ => result matches Err(error) && error@ == wrong_kind(
                    object@,
                    "ExecutionTreeObject::Node"@,
                ),
            },
    {
        match object {
            ExecutionTreeObject::Node(result) => Ok(result),
            object => Err(mismatch(&object, ExecutionTreeObject::node_str())),
        }
    }
}

impl FromSpecImpl<ExecutionTreeObject> for Result<ExecutionTreeNode, LispError> {
    open spec fn obeys_from_spec() -> bool {
        false
    }

    open spec fn from_spec(object: ExecutionTreeObject) -> Self {
        arbitrary()
    }
}

impl From<ExecutionTreeObject> for Result<String, LispError> {
    /// The text of an object of kind `String`, or the name of one of kind `Symbol`.
    fn from(object: ExecutionTreeObject) -> (result: Result<String, LispError>)
        ensures
            match object@ {
                ObjectModel::String(text) => result matches Ok(held) && held@ == text,
                ObjectModel::Symbol(name) => result matches Ok(held) && held@ == name,
                _ => result matches Err(error) && error@ == wrong_kind(
                    object@,
                    "ExecutionTreeObject::String"@,
                ),
            },
    {
        match object {
            ExecutionTreeObject::String(result) => Ok(result),
            ExecutionTreeObject::Symbol(result) => Ok(result),
            object => Err(mismatch(&object, ExecutionTreeObject::string_str())),
        }
    }
}

impl FromSpecImpl<ExecutionTreeObject> for Result<String, LispError> {
    open spec fn obeys_from_spec() -> bool {
        false
    }

    open spec fn from_spec(object: ExecutionTreeObject) -> Self {
        arbitrary()
    }
}

} // verus!
