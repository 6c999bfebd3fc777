//! An object of the execution tree: a literal, a symbol or a node.

use crate::error::LispError;
use crate::lisp::execution_tree_node::ExecutionTreeNode;
use crate::lisp::object_model::kind_name;
use crate::lisp::object_model::nil;
use crate::lisp::object_model::render;
use crate::lisp::object_model::ObjectModel;
use crate::string::decimal::push_signed;
use crate::string::decimal::push_unsigned;
use vstd::prelude::*;
use vstd::string::StringExecFns;

verus! {

/// An object of the execution tree. A number with a fraction is held as the
/// text of its literal, without the suffix.
#[derive(Debug, PartialEq)]
pub enum ExecutionTreeObject {
    Bool(bool),
    Char(char),
    F32(String),
    F64(String),
    I8(i8),
    I16(i16),
    I32(i32),
    I64(i64),
    ISize(isize),
    Node(ExecutionTreeNode),
    Symbol(String),
    String(String),
    U8(u8),
    U16(u16),
    U32(u32),
    U64(u64),
    USize(usize),
}

impl View for ExecutionTreeObject {
    type V = ObjectModel;

    open spec fn view(&self) -> ObjectModel
        decreases self,
    {
        match self {
            ExecutionTreeObject::Bool(value) => ObjectModel::Bool(*value),
            ExecutionTreeObject::Char(value) => ObjectModel::Char(*value),
            ExecutionTreeObject::F32(literal) => ObjectModel::F32(literal@),
            ExecutionTreeObject::F64(literal) => ObjectModel::F64(literal@),
            ExecutionTreeObject::I8(value) => ObjectModel::I8(*value),
            ExecutionTreeObject::I16(value) => ObjectModel::I16(*value),
            ExecutionTreeObject::I32(value) => ObjectModel::I32(*value),
            ExecutionTreeObject::I64(value) => ObjectModel::I64(*value),
            ExecutionTreeObject::ISize(value) => ObjectModel::ISize(*value),
            ExecutionTreeObject::Node(node) => ObjectModel::Node(node.view()),
            ExecutionTreeObject::Symbol(name) => ObjectModel::Symbol(name@),
            ExecutionTreeObject::String(text) => ObjectModel::String(text@),
            ExecutionTreeObject::U8(value) => ObjectModel::U8(*value),
            ExecutionTreeObject::U16(value) => ObjectModel::U16(*value),
            ExecutionTreeObject::U32(value) => ObjectModel::U32(*value),
            ExecutionTreeObject::U64(value) => ObjectModel::U64(*value),
            ExecutionTreeObject::USize(value) => ObjectModel::USize(*value),
        }
    }
}

impl Clone for ExecutionTreeObject {
    fn clone(&self) -> (copy: Self)
        ensures
            copy@ == self@,
        decreases self,
    {
        match self {
            ExecutionTreeObject::Bool(value) => ExecutionTreeObject::Bool(*value),
            ExecutionTreeObject::Char(value) => ExecutionTreeObject::Char(*value),
            ExecutionTreeObject::F32(literal) => ExecutionTreeObject::F32(literal.clone()),
            ExecutionTreeObject::F64(literal) => ExecutionTreeObject::F64(literal.clone()),
            ExecutionTreeObject::I8(value) => ExecutionTreeObject::I8(*value),
            ExecutionTreeObject::I16(value) => ExecutionTreeObject::I16(*value),
            ExecutionTreeObject::I32(value) => ExecutionTreeObject::I32(*value),
            ExecutionTreeObject::I64(value) => ExecutionTreeObject::I64(*value),
            ExecutionTreeObject::ISize(value) => ExecutionTreeObject::ISize(*value),
            ExecutionTreeObject::Node(node) => ExecutionTreeObject::Node(node.clone()),
            ExecutionTreeObject::Symbol(name) => ExecutionTreeObject::Symbol(name.clone()),
            ExecutionTreeObject::String(text) => ExecutionTreeObject::String(text.clone()),
            ExecutionTreeObject::U8(value) => ExecutionTreeObject::U8(*value),
            ExecutionTreeObject::U16(value) => ExecutionTreeObject::U16(*value),
            ExecutionTreeObject::U32(value) => ExecutionTreeObject::U32(*value),
            ExecutionTreeObject::U64(value) => ExecutionTreeObject::U64(*value),
            ExecutionTreeObject::USize(value) => ExecutionTreeObject::USize(*value),
        }
    }
}

impl ExecutionTreeObject {
    /// The empty node, which stands for nothing.
    pub fn nil() -> (object: Self)
        ensures
            object@ == nil(),
    {
        ExecutionTreeObject::Node(ExecutionTreeNode::nil())
    }

    pub fn bool_str() -> (text: &'static str)
        ensures
            text@ == "ExecutionTreeObject::Bool"@,
    {
        "ExecutionTreeObject::Bool"
    }

    pub fn char_str() -> (text: &'static str)
        ensures
            text@ == "ExecutionTreeObject::Char"@,
    {
        "ExecutionTreeObject::Char"
    }

    pub fn f32_str() -> (text: &'static str)
        ensures
            text@ == "ExecutionTreeObject::F32"@,
    {
        "ExecutionTreeObject::F32"
    }

    pub fn f64_str() -> (text: &'static str)
        ensures
            text@ == "ExecutionTreeObject::F64"@,
    {
        "ExecutionTreeObject::F64"
    }

    pub fn i8_str() -> (text: &'static str)
        ensures
            text@ == "ExecutionTreeObject::I8"@,
    {
        "ExecutionTreeObject::I8"
    }

    pub fn i16_str() -> (text: &'static str)
        ensures
            text@ == "ExecutionTreeObject::I16"@,
    {
        "ExecutionTreeObject::I16"
    }

    pub fn i32_str() -> (text: &'static str)
        ensures
            text@ == "ExecutionTreeObject::I32"@,
    {
        "ExecutionTreeObject::I32"
    }

    pub fn i64_str() -> (text: &'static str)
        ensures
            text@ == "ExecutionTreeObject::I64"@,
    {
        "ExecutionTreeObject::I64"
    }

    pub fn isize_str() -> (text: &'static str)
        ensures
            text@ == "ExecutionTreeObject::ISize"@,
    {
        "ExecutionTreeObject::ISize"
    }

    pub fn node_str() -> (text: &'static str)
        ensures
            text@ == "ExecutionTreeObject::Node"@,
    {
        "ExecutionTreeObject::Node"
    }

    pub fn symbol_str() -> (text: &'static str)
        ensures
            text@ == "ExecutionTreeObject::Symbol"@,
    {
        "ExecutionTreeObject::Symbol"
    }

    pub fn string_str() -> (text: &'static str)
        ensures
            text@ == "ExecutionTreeObject::String"@,
    {
        "ExecutionTreeObject::String"
    }

    pub fn u8_str() -> (text: &'static str)
        ensures
            text@ == "ExecutionTreeObject::U8"@,
    {
        "ExecutionTreeObject::U8"
    }

    pub fn u16_str() -> (text: &'static str)
        ensures
            text@ == "ExecutionTreeObject::U16"@,
    {
        "ExecutionTreeObject::U16"
    }

    pub fn u32_str() -> (text: &'static str)
        ensures
            text@ == "ExecutionTreeObject::U32"@,
    {
        "ExecutionTreeObject::U32"
    }

    pub fn u64_str() -> (text: &'static str)
        ensures
            text@ == "ExecutionTreeObject::U64"@,
    {
        "ExecutionTreeObject::U64"
    }

    pub fn usize_str() -> (text: &'static str)
        ensures
            text@ == "ExecutionTreeObject::USize"@,
    {
        "ExecutionTreeObject::USize"
    }

    /// The name of the object's kind.
    pub fn enum_to_string(&self) -> (text: &'static str)
        ensures
            text@ == kind_name(self@),
    {
        match self {
            ExecutionTreeObject::Bool(_) => Self::bool_str(),
            ExecutionTreeObject::Char(_) => Self::char_str(),
            ExecutionTreeObject::F32(_) => Self::f32_str(),
            ExecutionTreeObject::F64(_) => Self::f64_str(),
            ExecutionTreeObject::I8(_) => Self::i8_str(),
            ExecutionTreeObject::I16(_) => Self::i16_str(),
            ExecutionTreeObject::I32(_) => Self::i32_str(),
            ExecutionTreeObject::I64(_) => Self::i64_str(),
            ExecutionTreeObject::ISize(_) => Self::isize_str(),
            ExecutionTreeObject::Node(_) => Self::node_str(),
            ExecutionTreeObject::Symbol(_) => Self::symbol_str(),
            ExecutionTreeObject::String(_) => Self::string_str(),
            ExecutionTreeObject::U8(_) => Self::u8_str(),
            ExecutionTreeObject::U16(_) => Self::u16_str(),
            ExecutionTreeObject::U32(_) => Self::u32_str(),
            ExecutionTreeObject::U64(_) => Self::u64_str(),
            ExecutionTreeObject::USize(_) => Self::usize_str(),
        }
    }

    /// The canonical text of the object. It never fails.
    pub fn to_string(&self) -> (text: Result<String, LispError>)
        ensures
            text matches Ok(written) && written@ == render(self@),
        decreases self,
    {
        let mut written = String::new();
        match self {
            ExecutionTreeObject::Bool(value) => {
                if *value {
                    written.append("true");
                } else {
                    written.append("false");
                }
            },
            ExecutionTreeObject::Char(value) => {
                written.push('\'');
                written.push(*value);
                written.push('\'');
            },
            ExecutionTreeObject::F32(literal) => {
                written.append(literal.as_str());
                written.append("f32");
            },
            ExecutionTreeObject::F64(literal) => {
                written.append(literal.as_str());
                written.append("f64");
            },
            ExecutionTreeObject::I8(value) => {
                push_signed(&mut written, *value as i64);
                written.append("i8");
            },
            ExecutionTreeObject::I16(value) => {
                push_signed(&mut written, *value as i64);
                written.append("i16");
            },
            ExecutionTreeObject::I32(value) => {
                push_signed(&mut written, *value as i64);
                written.append("i32");
            },
            ExecutionTreeObject::I64(value) => {
                push_signed(&mut written, *value);
                written.append("i64");
            },
            ExecutionTreeObject::ISize(value) => {
                push_signed(&mut written, *value as i64);
                written.append("isize");
            },
            ExecutionTreeObject::Node(node) => {
                return node.to_string();
            },
            ExecutionTreeObject::Symbol(name) => {
                written.append(name.as_str());
            },
            ExecutionTreeObject::String(text) => {
                written.push('"');
                written.append(text.as_str());
                written.push('"');
            },
            ExecutionTreeObject::U8(value) => {
                push_unsigned(&mut written, *value as u64);
                written.append("u8");
            },
            ExecutionTreeObject::U16(value) => {
                push_unsigned(&mut written, *value as u64);
                written.append("u16");
            },
            ExecutionTreeObject::U32(value) => {
                push_unsigned(&mut written, *value as u64);
                written.append("u32");
            },
            ExecutionTreeObject::U64(value) => {
                push_unsigned(&mut written, *value);
                written.append("u64");
            },
            ExecutionTreeObject::USize(value) => {
                push_unsigned(&mut written, *value as u64);
                written.append("usize");
            },
        }
        assert(written@ =~= render(self@));
        Ok(written)
    }
}

} // verus!
