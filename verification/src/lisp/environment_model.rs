//! What an environment holds, as plain values, and how a name is resolved in it.

use crate::lisp::symbol::SymbolModel;
use vstd::prelude::*;

verus! {

/// The bindings of one frame.
pub type FrameModel<F> = Map<Seq<char>, SymbolModel<F>>;

/// An environment: the global frame, and the call stack with its innermost
/// frame last.
pub struct EnvironmentModel<F> {
    pub call_stack: Seq<FrameModel<F>>,
    pub global_frame: FrameModel<F>,
}

impl<F> EnvironmentModel<F> {
    /// The environment with a frame without bindings on top of the call stack.
    pub open spec fn pushed(self) -> Self {
        EnvironmentModel {
            call_stack: self.call_stack.push(Map::empty()),
            global_frame: self.global_frame,
        }
    }

    /// The environment without the innermost frame of the call stack.
    pub open spec fn popped(self) -> Self {
        if self.call_stack.len() == 0 {
            self
        } else {
            EnvironmentModel {
                call_stack: self.call_stack.drop_last(),
                global_frame: self.global_frame,
            }
        }
    }

    /// What `name` is bound to: in the global frame where it binds the name,
    /// else in the innermost frame of the call stack that does.
    pub open spec fn resolve(self, name: Seq<char>) -> Option<SymbolModel<F>> {
        if self.global_frame.contains_key(name) {
            Some(self.global_frame[name])
        } else {
            search(self.call_stack, name)
        }
    }
}

/// What `name` is bound to in the innermost frame of `call_stack` that binds it.
pub open spec fn search<F>(call_stack: Seq<FrameModel<F>>, name: Seq<char>) -> Option<
    SymbolModel<F>,
>
    decreases call_stack.len(),
{
    if call_stack.len() == 0 {
        None
    } else if call_stack.last().contains_key(name) {
        Some(call_stack.last()[name])
    } else {
        search(call_stack.drop_last(), name)
    }
}

} // verus!
