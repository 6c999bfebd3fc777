//! What an object of the execution tree holds, as plain values, and how it is written.

use crate::string::decimal::decimal_text;
use vstd::prelude::*;

verus! {

/// An object of the execution tree: texts as sequences of characters, a node
/// as the sequence of its objects.
pub enum ObjectModel {
    Bool(bool),
    Char(char),
    F32(Seq<char>),
    F64(Seq<char>),
    I8(i8),
    I16(i16),
    I32(i32),
    I64(i64),
    ISize(isize),
    Node(Seq<ObjectModel>),
    Symbol(Seq<char>),
    String(Seq<char>),
    U8(u8),
    U16(u16),
    U32(u32),
    U64(u64),
    USize(usize),
}

/// The empty node, which stands for nothing.
pub open spec fn nil() -> ObjectModel {
    ObjectModel::Node(Seq::empty())
}

/// The name of the object's kind, as messages show it.
pub open spec fn kind_name(object: ObjectModel) -> Seq<char> {
    match object {
        ObjectModel::Bool(_) => "ExecutionTreeObject::Bool"@,
        ObjectModel::Char(_) => "ExecutionTreeObject::Char"@,
        ObjectModel::F32(_) => "ExecutionTreeObject::F32"@,
        ObjectModel::F64(_) => "ExecutionTreeObject::F64"@,
        ObjectModel::I8(_) => "ExecutionTreeObject::I8"@,
        ObjectModel::I16(_) => "ExecutionTreeObject::I16"@,
        ObjectModel::I32(_) => "ExecutionTreeObject::I32"@,
        ObjectModel::I64(_) => "ExecutionTreeObject::I64"@,
        ObjectModel::ISize(_) => "ExecutionTreeObject::ISize"@,
        ObjectModel::Node(_) => "ExecutionTreeObject::Node"@,
        ObjectModel::Symbol(_) => "ExecutionTreeObject::Symbol"@,
        ObjectModel::String(_) => "ExecutionTreeObject::String"@,
        ObjectModel::U8(_) => "ExecutionTreeObject::U8"@,
        ObjectModel::U16(_) => "ExecutionTreeObject::U16"@,
        ObjectModel::U32(_) => "ExecutionTreeObject::U32"@,
        ObjectModel::U64(_) => "ExecutionTreeObject::U64"@,
        ObjectModel::USize(_) => "ExecutionTreeObject::USize"@,
    }
}

/// The canonical text of an object: a number with the suffix of its kind, a
/// character between single quotes, a string between double quotes with
/// nothing escaped, a symbol as it is, a node as `render_node` writes it.
pub open spec fn render(object: ObjectModel) -> Seq<char>
    decreases object, 0nat,
{
    match object {
        ObjectModel::Bool(value) => if value {
            "true"@
        } else {
            "false"@
        },
        ObjectModel::Char(value) => seq!['\''].push(value).push('\''),
        ObjectModel::F32(literal) => literal + "f32"@,
        ObjectModel::F64(literal) => literal + "f64"@,
        ObjectModel::I8(value) => decimal_text(value as int) + "i8"@,
        ObjectModel::I16(value) => decimal_text(value as int) + "i16"@,
        ObjectModel::I32(value) => decimal_text(value as int) + "i32"@,
        ObjectModel::I64(value) => decimal_text(value as int) + "i64"@,
        ObjectModel::ISize(value) => decimal_text(value as int) + "isize"@,
        ObjectModel::Node(objects) => render_node(objects),
        ObjectModel::Symbol(name) => name,
        ObjectModel::String(text) => seq!['"'] + text + seq!['"'],
        ObjectModel::U8(value) => decimal_text(value as int) + "u8"@,
        ObjectModel::U16(value) => decimal_text(value as int) + "u16"@,
        ObjectModel::U32(value) => decimal_text(value as int) + "u32"@,
        ObjectModel::U64(value) => decimal_text(value as int) + "u64"@,
        ObjectModel::USize(value) => decimal_text(value as int) + "usize"@,
    }
}

/// The texts of `objects` with one space between neighbours.
pub open spec fn render_joined(objects: Seq<ObjectModel>) -> Seq<char>
    decreases objects, 0nat,
{
    if objects.len() == 0 {
        Seq::empty()
    } else if objects.len() == 1 {
        render(objects[0])
    } else {
        render_joined(objects.drop_last()).push(' ') + render(objects.last())
    }
}

/// The canonical text of a node: its objects between parentheses, `()` for none.
pub open spec fn render_node(objects: Seq<ObjectModel>) -> Seq<char>
    decreases objects, 1nat,
{
    seq!['('] + render_joined(objects).push(')')
}

} // verus!
