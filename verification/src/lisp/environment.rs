//! The environment: the global frame and the call stack, and the evaluator.

use crate::error::ErrorModel;
use crate::error::LispError;
use crate::error::SymbolNotOnStack;
use crate::lisp::abstract_syntax_tree::AbstractSyntaxTree;
use crate::lisp::built_in_func::BuiltInFunc;
use crate::lisp::environment_model::search;
use crate::lisp::environment_model::EnvironmentModel;
use crate::lisp::environment_model::FrameModel;
use crate::lisp::execution_tree::outcome;
use crate::lisp::execution_tree::text_outcome;
use crate::lisp::execution_tree::ExecutionTree;
use crate::lisp::execution_tree_node::models;
use crate::lisp::execution_tree_node::ExecutionTreeNode;
use crate::lisp::execution_tree_object::ExecutionTreeObject;
use crate::lisp::frame::Frame;
use crate::lisp::laws;
use crate::lisp::object_model::render;
use crate::lisp::object_model::ObjectModel;
use crate::lisp::semantics;
use crate::lisp::symbol::Symbol;
use crate::lisp::symbol::SymbolModel;
use vstd::prelude::*;
use vstd::string::StringExecFns;

verus! {

/// What each of `frames` binds.
pub open spec fn frame_models<F>(frames: Seq<Frame<F>>) -> Seq<FrameModel<F>> {
    Seq::new(frames.len(), |i: int| frames[i]@)
}

/// The global frame and the call stack.
pub struct Environment<F> {
    call_stack: Vec<Frame<F>>,
    global_frame: Frame<F>,
}

impl<F> View for Environment<F> {
    type V = EnvironmentModel<F>;

    closed spec fn view(&self) -> EnvironmentModel<F> {
        EnvironmentModel {
            call_stack: frame_models(self.call_stack@),
            global_frame: self.global_frame@,
        }
    }
}

impl<F: BuiltInFunc> Environment<F> {
    /// An environment without bindings and with an empty call stack.
    pub fn new() -> (environment: Self)
        ensures
            environment@.call_stack == Seq::<FrameModel<F>>::empty(),
            environment@.global_frame == Map::<Seq<char>, SymbolModel<F>>::empty(),
    {
        let environment = Environment { call_stack: Vec::new(), global_frame: Frame::new() };
        assert(environment@.call_stack =~= Seq::<FrameModel<F>>::empty());
        environment
    }

    fn pop_frame(&mut self)
        ensures
            final(self)@ == old(self)@.popped(),
    {
        let ghost before = self.call_stack@;
        self.call_stack.pop();
        proof {
            if before.len() > 0 {
                assert(frame_models(self.call_stack@) =~= frame_models(before).drop_last());
            }
        }
    }

    fn push_frame(&mut self)
        ensures
            final(self)@ == old(self)@.pushed(),
    {
        let ghost before = self.call_stack@;
        self.call_stack.push(Frame::new());
        proof {
            assert(frame_models(self.call_stack@) =~= frame_models(before).push(Map::empty()));
        }
    }

    /// What `symbol` is bound to in the innermost frame of the call stack that binds it.
    fn symbol_stack_search(&self, symbol: &str) -> (found: Result<Symbol<F>, LispError>)
        ensures
            match search(self@.call_stack, symbol@) {
                Some(bound) => found matches Ok(held) && held@ == bound,
                None => found matches Err(failure) && Err::<ObjectModel, _>(failure@)
                    == semantics::unbound(symbol@),
            },
    {
        let mut depth: usize = self.call_stack.len();
        proof {
            assert(frame_models(self.call_stack@).take(depth as int) =~= frame_models(
                self.call_stack@,
            ));
        }
        while depth > 0
            invariant
                depth <= self.call_stack.len(),
                search(self@.call_stack, symbol@) == search(
                    self@.call_stack.take(depth as int),
                    symbol@,
                ),
            decreases depth,
        {
            proof {
                let frames = self@.call_stack.take(depth as int);
                assert(frames.drop_last() =~= self@.call_stack.take(depth - 1));
                assert(frames.last() == self.call_stack@[depth - 1]@);
            }
            depth -= 1;
            if let Some(found) = self.call_stack[depth].try_get(symbol) {
                return Ok(found);
            }
        }
        Err(LispError::SymbolNotOnStack(SymbolNotOnStack::new(String::from_str(symbol))))
    }

    /// Evaluates `object`, in a frame of its own that is popped again on
    /// success and on failure. What it may leave and give is
    /// `semantics::evaluates`. Where no symbol within `object` is bound to a
    /// built-in function, it leaves the environment as it was and gives
    /// `semantics::value`.
    pub fn evaluate(&mut self, arg: &F::Arg, object: ExecutionTreeObject) -> (result: Result<
        ExecutionTreeObject,
        LispError,
    >)
        ensures
            semantics::evaluates(arg, old(self)@, object@, final(self)@, outcome(result)),
            semantics::calls_nothing(old(self)@, object@) ==> final(self)@ == old(self)@ && outcome(
                result,
            ) == semantics::value(old(self)@, object@),
        decreases object@, 0nat,
    {
        let ghost whole = object@;
        self.push_frame();
        let ghost pushed = self@;
        let result = match object {
            ExecutionTreeObject::Node(node) => {
                let mut inner_objects = node.into_objects();
                let inner_objects_len = inner_objects.len();
                if inner_objects_len > 1 {
                    proof {
                        assert(decreases_to!(object@ => object@->Node_0));
                    }
                    self.evaluate_list(arg, inner_objects)
                } else {
                    match inner_objects.pop() {
                        Some(first) => {
                            proof {
                                assert(first@ == node@[0]);
                                assert(decreases_to!(object@ => object@->Node_0));
                                assert(decreases_to!(node@ => node@[0]));
                            }
                            self.evaluate(arg, first)
                        },
                        None => {
                            let nil = ExecutionTreeObject::nil();
                            Ok(nil)
                        },
                    }
                }
            },
            ExecutionTreeObject::Symbol(symbol) => {
                match self.resolve(symbol.as_str()) {
                    Ok(Symbol::BuiltInFunc(func)) => {
                        let empty_args: Vec<ExecutionTreeObject> = Vec::new();
                        proof {
                            assert(models(empty_args@) =~= Seq::<ObjectModel>::empty());
                        }
                        func.invoke(arg, self, empty_args)
                    },
                    Ok(Symbol::Object(object)) => Ok(object),
                    Err(error) => Err(error),
                }
            },
            other => Ok(other),
        };
        let ghost inner = self@;
        proof {
            assert(semantics::evaluates_within(
                arg,
                old(self)@.pushed(),
                object@,
                inner,
                outcome(result),
            ));
        }
        self.pop_frame();
        proof {
            if semantics::calls_nothing(old(self)@, whole) {
                laws::lemma_evaluation_without_built_in(
                    arg,
                    old(self)@,
                    whole,
                    self@,
                    outcome(result),
                );
            }
        }
        result
    }

    /// Evaluates the root of `execution_tree` and writes out what it gives:
    /// see `semantics::executes`. Where no symbol of the tree is bound to a
    /// built-in function, it leaves the environment as it was and gives the
    /// text of `semantics::value`.
    pub fn execute(&mut self, arg: &F::Arg, execution_tree: ExecutionTree) -> (result: Result<
        String,
        LispError,
    >)
        ensures
            semantics::executes(
                arg,
                old(self)@,
                execution_tree@,
                final(self)@,
                text_outcome(result),
            ),
            semantics::calls_nothing(old(self)@, ObjectModel::Node(execution_tree@)) ==> final(self)@
                == old(self)@ && text_outcome(result) == semantics::rendered(
                semantics::value(old(self)@, ObjectModel::Node(execution_tree@)),
            ),
    {
        let execution_tree_root = execution_tree.into_root();
        let execution_tree_root_object = ExecutionTreeObject::Node(execution_tree_root);
        match self.evaluate(arg, execution_tree_root_object) {
            Ok(object) => {
                proof {
                    assert(semantics::rendered(Ok(object@)) == Ok::<Seq<char>, ErrorModel>(
                        render(object@),
                    ));
                }
                object.to_string()
            },
            Err(error) => {
                proof {
                    assert(semantics::rendered(Err(error@)) == Err::<Seq<char>, ErrorModel>(
                        error@,
                    ));
                }
                Err(error)
            },
        }
    }

    /// The innermost frame of the call stack, if there is one.
    pub fn get_current_frame(&mut self) -> (current: Option<&mut Frame<F>>)
        ensures
            match current {
                Some(frame) => old(self)@.call_stack.len() > 0 && frame@ == old(
                    self,
                )@.call_stack.last() && final(self)@ == (EnvironmentModel {
                    call_stack: old(self)@.call_stack.update(
                        old(self)@.call_stack.len() - 1,
                        final(frame)@,
                    ),
                    global_frame: old(self)@.global_frame,
                }),
                None => old(self)@.call_stack.len() == 0 && final(self)@ == old(self)@,
            },
    {
        let len = self.call_stack.len();
        match len {
            0 => None,
            n => {
                let frame = &mut self.call_stack[n - 1];
                proof {
                    assert(frame_models(old(self).call_stack@.update(n - 1, *final(frame)))
                        =~= frame_models(old(self).call_stack@).update(n - 1, final(frame)@));
                }
                Some(frame)
            },
        }
    }

    /// The global frame.
    pub fn get_global_frame(&mut self) -> (global: &mut Frame<F>)
        ensures
            global@ == old(self)@.global_frame,
            final(self)@ == (EnvironmentModel {
                call_stack: old(self)@.call_stack,
                global_frame: final(global)@,
            }),
    {
        &mut self.global_frame
    }

    /// Parses `source`, reads its tokens and executes the tree: see
    /// `semantics::parses_and_executes`. Where no symbol of the program is
    /// bound to a built-in function, it leaves the environment as it was and
    /// gives `semantics::program_value`.
    pub fn parse_and_execute(&mut self, arg: &F::Arg, source: &str) -> (result: Result<
        String,
        LispError,
    >)
        ensures
            semantics::parses_and_executes(
                arg,
                old(self)@,
                source@,
                final(self)@,
                text_outcome(result),
            ),
            semantics::program_calls_nothing(old(self)@, source@) ==> final(self)@ == old(self)@
                && text_outcome(result) == semantics::program_value(old(self)@, source@),
    {
        let ast = match AbstractSyntaxTree::new(source) {
            Ok(ast) => ast,
            Err(error) => {
                return Err(error);
            },
        };
        let execution_tree = match ExecutionTree::new(&ast) {
            Ok(execution_tree) => execution_tree,
            Err(error) => {
                return Err(error);
            },
        };
        self.execute(arg, execution_tree)
    }

    /// Evaluates the invocation `list`: see `semantics::invokes`.
    fn evaluate_list(&mut self, arg: &F::Arg, list: Vec<ExecutionTreeObject>) -> (result: Result<
        ExecutionTreeObject,
        LispError,
    >)
        ensures
            semantics::invokes(arg, old(self)@, models(list@), final(self)@, outcome(result)),
        decreases models(list@), 1nat,
    {
        self.push_frame();
        let ghost pushed = self@;
        let ghost objects = models(list@);
        let size = list.len();
        let result = if size == 0 {
            let nothing: Vec<ExecutionTreeObject> = Vec::new();
            proof {
                assert(models(nothing@) =~= Seq::<ObjectModel>::empty());
            }
            Ok(ExecutionTreeObject::Node(ExecutionTreeNode::new(nothing)))
        } else {
            proof {
                assert(objects[0] == list@[0]@);
            }
            let bound = match &list[0] {
                ExecutionTreeObject::Symbol(symbol) => Some(self.resolve(symbol.as_str())),
                _ => None,
            };
            match bound {
                Some(Ok(Symbol::BuiltInFunc(func))) => {
                    let mut rest = list;
                    rest.remove(0);
                    proof {
                        assert(models(rest@) =~= objects.drop_first());
                    }
                    func.invoke(arg, self, rest)
                },
                Some(Ok(Symbol::Object(object))) => {
                    let mut done: Vec<ExecutionTreeObject> = Vec::with_capacity(size);
                    done.push(object);
                    proof {
                        assert(models(done@) =~= seq![object@]);
                    }
                    self.evaluate_each(arg, list, true, done)
                },
                Some(Err(error)) => Err(error),
                None => {
                    let done: Vec<ExecutionTreeObject> = Vec::with_capacity(size);
                    proof {
                        assert(models(done@) =~= Seq::<ObjectModel>::empty());
                    }
                    self.evaluate_each(arg, list, false, done)
                },
            }
        };
        let ghost inner = self@;
        proof {
            assert(semantics::invokes_within(
                arg,
                old(self)@.pushed(),
                objects,
                inner,
                outcome(result),
            ));
        }
        self.pop_frame();
        result
    }

    /// Evaluates the objects of `list` one after the other, but for the first
    /// where `skip_first` holds, and adds what they give to `done`.
    fn evaluate_each(
        &mut self,
        arg: &F::Arg,
        list: Vec<ExecutionTreeObject>,
        skip_first: bool,
        done: Vec<ExecutionTreeObject>,
    ) -> (result: Result<ExecutionTreeObject, LispError>)
        ensures
            semantics::evaluates_each(
                arg,
                old(self)@,
                models(list@),
                if skip_first {
                    1
                } else {
                    0
                },
                models(done@),
                final(self)@,
                outcome(result),
            ),
        decreases models(list@), 0nat,
    {
        let ghost objects = models(list@);
        let ghost start = self@;
        let ghost from: int = if skip_first {
            1
        } else {
            0
        };
        let ghost done_before = models(done@);
        let mut collected = done;
        let mut position: usize = 0;
        let ghost length = list.len();
        for object in rest: list
            invariant
                rest.seq() == list@,
                length == list@.len(),
                start == old(self)@,
                done_before == models(done@),
                from == if skip_first {
                    1int
                } else {
                    0int
                },
                objects == models(list@),
                position == rest.index(),
                forall|after: EnvironmentModel<F>, given: Result<ObjectModel, ErrorModel>|
                    #![trigger semantics::step(after, given)]
                    semantics::step(after, given) && semantics::evaluates_each(
                        arg,
                        self@,
                        objects,
                        if position == 0 {
                            from
                        } else {
                            position as int
                        },
                        models(collected@),
                        after,
                        given,
                    ) ==> semantics::evaluates_each(
                        arg,
                        start,
                        objects,
                        from,
                        done_before,
                        after,
                        given,
                    ),
        {
            assert(position < list@.len());
            if position > 0 || !skip_first {
                let ghost before = self@;
                let ghost done_models = models(collected@);
                let ghost index = position as int;
                assert(object@ == objects[index]);
                match self.evaluate(arg, object) {
                    Ok(value) => {
                        collected.push(value);
                        proof {
                            assert(models(collected@) =~= done_models.push(value@));
                            assert(semantics::step(
                                self@,
                                Ok::<ObjectModel, ErrorModel>(value@),
                            ));
                            assert forall|
                                after: EnvironmentModel<F>,
                                given: Result<ObjectModel, ErrorModel>,
                            |
                                #![trigger semantics::step(after, given)]
                                semantics::step(after, given) && semantics::evaluates_each(
                                    arg,
                                    self@,
                                    objects,
                                    index + 1,
                                    models(collected@),
                                    after,
                                    given,
                                ) implies semantics::evaluates_each(
                                arg,
                                start,
                                objects,
                                from,
                                done_before,
                                after,
                                given,
                            ) by {
                                assert(semantics::evaluates_each(
                                    arg,
                                    before,
                                    objects,
                                    index,
                                    done_models,
                                    after,
                                    given,
                                ));
                                assert(semantics::step(after, given));
                            }
                        }
                    },
                    Err(error) => {
                        proof {
                            assert(semantics::step(
                                self@,
                                Err::<ObjectModel, ErrorModel>(error@),
                            ));
                            assert(semantics::evaluates_each(
                                arg,
                                before,
                                objects,
                                index,
                                done_models,
                                self@,
                                Err::<ObjectModel, ErrorModel>(error@),
                            ));
                        }
                        return Err(error);
                    },
                }
            }
            position += 1;
        }
        let ghost done_models = models(collected@);
        proof {
            assert(semantics::evaluates_each(
                arg,
                self@,
                objects,
                if position == 0 {
                    from
                } else {
                    position as int
                },
                done_models,
                self@,
                Ok::<ObjectModel, ErrorModel>(ObjectModel::Node(done_models)),
            ));
            assert(semantics::step(
                self@,
                Ok::<ObjectModel, ErrorModel>(ObjectModel::Node(done_models)),
            ));
        }
        Ok(ExecutionTreeObject::Node(ExecutionTreeNode::new(collected)))
    }

    /// What `symbol` is bound to: in the global frame first, then in the call stack.
    fn resolve(&self, symbol: &str) -> (found: Result<Symbol<F>, LispError>)
        ensures
            match self@.resolve(symbol@) {
                Some(bound) => found matches Ok(held) && held@ == bound,
                None => found matches Err(failure) && Err::<ObjectModel, _>(failure@)
                    == semantics::unbound(symbol@),
            },
    {
        match self.global_frame.try_get(symbol) {
            Some(found) => Ok(found),
            None => self.symbol_stack_search(symbol),
        }
    }
}

} // verus!
