//! An object of the syntax tree: a group or a token.

use crate::lisp::abstract_syntax_tree_node::AbstractSyntaxTreeNode;
use crate::lisp::syntax_model::SyntaxModel;
use vstd::prelude::*;

verus! {

/// An object of the syntax tree. A token is a slice of the program text.
#[derive(Debug)]
pub enum AbstractSyntaxTreeObject<'a> {
    Node(AbstractSyntaxTreeNode<'a>),
    String(&'a str),
}

impl<'a> View for AbstractSyntaxTreeObject<'a> {
    type V = SyntaxModel;

    open spec fn view(&self) -> SyntaxModel
        decreases self,
    {
        match self {
            AbstractSyntaxTreeObject::Node(node) => SyntaxModel::Node(node.view()),
            AbstractSyntaxTreeObject::String(token) => SyntaxModel::String(token@),
        }
    }
}

} // verus!
