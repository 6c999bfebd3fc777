//! The built-in functions that the host supplies.

use crate::error::ErrorModel;
use crate::error::LispError;
use crate::lisp::environment::Environment;
use crate::lisp::environment_model::EnvironmentModel;
use crate::lisp::execution_tree::outcome;
use crate::lisp::execution_tree_node::models;
use crate::lisp::execution_tree_object::ExecutionTreeObject;
use crate::lisp::object_model::ObjectModel;
use vstd::prelude::*;

verus! {

/// A built-in function of the host. The evaluator hands it the arguments of
/// the invocation as they stand in the tree: whether and how they are
/// evaluated is for the function to decide.
pub trait BuiltInFunc: Sized + Copy {
    /// What the host hands through to its functions. The library never looks at it.
    type Arg;

    /// What an invocation may do: whether, called with `arguments` in the
    /// environment `before`, the function may leave the environment `after`
    /// and hand back `result`. An implementation that says nothing allows
    /// everything.
    open spec fn invoked(
        &self,
        arg: &Self::Arg,
        before: EnvironmentModel<Self>,
        arguments: Seq<ObjectModel>,
        after: EnvironmentModel<Self>,
        result: Result<ObjectModel, ErrorModel>,
    ) -> bool {
        true
    }

    /// Invokes the function. The innermost frame of `environment` is the one
    /// that was pushed for this invocation, and holds nothing yet.
    fn invoke(
        &self,
        arg: &Self::Arg,
        environment: &mut Environment<Self>,
        arguments: Vec<ExecutionTreeObject>,
    ) -> (result: Result<ExecutionTreeObject, LispError>)
        requires
            old(environment)@.call_stack.len() > 0,
            old(environment)@.call_stack.last() == Map::<
                Seq<char>,
                crate::lisp::symbol::SymbolModel<Self>,
            >::empty(),
        ensures
            self.invoked(
                arg,
                old(environment)@,
                models(arguments@),
                final(environment)@,
                outcome(result),
            ),
    ;
}

} // verus!
