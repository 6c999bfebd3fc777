//! What a name is bound to: an object, or a built-in function of the host.

use crate::lisp::execution_tree_object::ExecutionTreeObject;
use crate::lisp::object_model::ObjectModel;
use vstd::prelude::*;

verus! {

/// What a name is bound to.
pub enum Symbol<F> {
    Object(ExecutionTreeObject),
    BuiltInFunc(F),
}

/// What a name is bound to, with the object as plain values.
pub enum SymbolModel<F> {
    Object(ObjectModel),
    BuiltInFunc(F),
}

impl<F> View for Symbol<F> {
    type V = SymbolModel<F>;

    open spec fn view(&self) -> SymbolModel<F> {
        match self {
            Symbol::Object(object) => SymbolModel::Object(object@),
            Symbol::BuiltInFunc(function) => SymbolModel::BuiltInFunc(*function),
        }
    }
}

impl<F: Copy> Clone for Symbol<F> {
    fn clone(&self) -> (copy: Self)
        ensures
            copy@ == self@,
    {
        match self {
            Symbol::Object(some) => Symbol::Object(some.clone()),
            Symbol::BuiltInFunc(some) => Symbol::BuiltInFunc(*some),
        }
    }
}

} // verus!
