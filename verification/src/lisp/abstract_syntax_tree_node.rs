//! A group of the syntax tree: what stands between two matching parentheses.

use crate::lisp::abstract_syntax_tree_object::AbstractSyntaxTreeObject;
use crate::lisp::syntax_model::SyntaxModel;
use vstd::prelude::*;

verus! {

/// What each of `objects` holds.
pub open spec fn syntax_models(objects: Seq<AbstractSyntaxTreeObject>) -> Seq<SyntaxModel> {
    Seq::new(objects.len(), |i: int| objects[i]@)
}

/// A group of the syntax tree.
#[derive(Debug)]
pub struct AbstractSyntaxTreeNode<'a> {
    objects: Vec<AbstractSyntaxTreeObject<'a>>,
}

impl<'a> View for AbstractSyntaxTreeNode<'a> {
    type V = Seq<SyntaxModel>;

    closed spec fn view(&self) -> Seq<SyntaxModel>
        decreases self,
    {
        Seq::new(
            self.objects@.len(),
            |i: int|
                if 0 <= i < self.objects@.len() {
                    self.objects@[i].view()
                } else {
                    SyntaxModel::String(Seq::empty())
                },
        )
    }
}

impl<'a> AbstractSyntaxTreeNode<'a> {
    pub fn new(objects: Vec<AbstractSyntaxTreeObject<'a>>) -> (node: Self)
        ensures
            node@ == syntax_models(objects@),
    {
        let node = AbstractSyntaxTreeNode { objects };
        assert(node@ =~= syntax_models(node.objects@));
        node
    }

    pub fn get_objects(&self) -> (objects: &Vec<AbstractSyntaxTreeObject<'a>>)
        ensures
            syntax_models(objects@) == self@,
    {
        assert(self@ =~= syntax_models(self.objects@));
        &self.objects
    }
}

} // verus!
