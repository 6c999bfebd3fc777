//! A node of the execution tree: an ordered run of objects.

use crate::error::LispError;
use crate::lisp::execution_tree_object::ExecutionTreeObject;
use crate::lisp::object_model::render_joined;
use crate::lisp::object_model::render_node;
use crate::lisp::object_model::ObjectModel;
use vstd::prelude::*;
use vstd::string::StringExecFns;

verus! {

/// What each of `objects` holds.
pub open spec fn models(objects: Seq<ExecutionTreeObject>) -> Seq<ObjectModel> {
    Seq::new(objects.len(), |i: int| objects[i]@)
}

/// A node of the execution tree.
#[derive(Debug, PartialEq)]
pub struct ExecutionTreeNode {
    objects: Vec<ExecutionTreeObject>,
}

impl View for ExecutionTreeNode {
    type V = Seq<ObjectModel>;

    closed spec fn view(&self) -> Seq<ObjectModel>
        decreases self,
    {
        Seq::new(
            self.objects@.len(),
            |i: int|
                if 0 <= i < self.objects@.len() {
                    self.objects@[i].view()
                } else {
                    ObjectModel::Bool(false)
                },
        )
    }
}

impl Clone for ExecutionTreeNode {
    fn clone(&self) -> (copy: Self)
        ensures
            copy@ == self@,
        decreases self,
    {
        let mut objects: Vec<ExecutionTreeObject> = Vec::with_capacity(self.objects.len());
        let mut index: usize = 0;
        while index < self.objects.len()
            invariant
                index <= self.objects.len(),
                objects.len() == index,
                forall|i: int| 0 <= i < index ==> objects@[i]@ == self.objects@[i]@,
            decreases self.objects.len() - index,
        {
            objects.push(self.objects[index].clone());
            index += 1;
        }
        let copy = ExecutionTreeNode { objects };
        assert(copy@ =~= self@);
        copy
    }
}

impl ExecutionTreeNode {
    pub fn new(objects: Vec<ExecutionTreeObject>) -> (node: Self)
        ensures
            node@ == models(objects@),
    {
        let node = ExecutionTreeNode { objects };
        assert(node@ =~= models(node.objects@));
        node
    }

    pub fn get_objects(&self) -> (objects: &Vec<ExecutionTreeObject>)
        ensures
            models(objects@) == self@,
    {
        assert(self@ =~= models(self.objects@));
        &self.objects
    }

    pub fn into_objects(self) -> (objects: Vec<ExecutionTreeObject>)
        ensures
            models(objects@) == self@,
    {
        assert(self@ =~= models(self.objects@));
        self.objects
    }

    /// The empty node.
    pub fn nil() -> (node: Self)
        ensures
            node@ == Seq::<ObjectModel>::empty(),
    {
        let node = ExecutionTreeNode { objects: Vec::new() };
        assert(node@ =~= Seq::<ObjectModel>::empty());
        node
    }

    /// The canonical text of the node. It never fails.
    pub fn to_string(&self) -> (text: Result<String, LispError>)
        ensures
            text matches Ok(written) && written@ == render_node(self@),
        decreases self,
    {
        let mut written = String::new();
        written.push('(');
        let mut index: usize = 0;
        while index < self.objects.len()
            invariant
                index <= self.objects.len(),
                written@ == seq!['('] + render_joined(self@.take(index as int)),
            decreases self.objects.len() - index,
        {
            if index > 0 {
                written.push(' ');
            }
            let inner = match self.objects[index].to_string() {
                Ok(inner) => inner,
                Err(error) => {
                    return Err(error);
                },
            };
            written.append(inner.as_str());
            proof {
                let before = self@.take(index as int);
                let after = self@.take(index + 1);
                assert(after.drop_last() =~= before);
                assert(after.last() == self.objects@[index as int]@);
                assert(written@ =~= seq!['('] + render_joined(after));
            }
            index += 1;
        }
        proof {
            assert(self@.take(index as int) =~= self@);
        }
        written.push(')');
        Ok(written)
    }
}

} // verus!
