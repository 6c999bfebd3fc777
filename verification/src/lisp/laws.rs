//! What holds of every evaluation.

use crate::error::ErrorModel;
use crate::lisp::built_in_func::BuiltInFunc;
use crate::lisp::environment_model::search;
use crate::lisp::environment_model::EnvironmentModel;
use crate::lisp::object_model::nil;
use crate::lisp::object_model::render;
use crate::lisp::object_model::ObjectModel;
use crate::lisp::semantics::calls_nothing;
use crate::lisp::semantics::evaluates;
use crate::lisp::semantics::evaluates_each;
use crate::lisp::semantics::evaluates_within;
use crate::lisp::semantics::invokes;
use crate::lisp::semantics::invokes_within;
use crate::lisp::semantics::unbound;
use crate::lisp::semantics::value;
use crate::lisp::semantics::values;
use crate::lisp::symbol::SymbolModel;
use vstd::prelude::*;

verus! {

/// A frame without bindings on top of the call stack changes nothing about
/// what a name is bound to, and to pop it again gives the environment back.
pub proof fn lemma_pushed_frame_binds_nothing<F>(environment: EnvironmentModel<F>)
    ensures
        environment.pushed().popped() == environment,
        forall|name: Seq<char>| #[trigger]
            environment.pushed().resolve(name) == environment.resolve(name),
        forall|object: ObjectModel| #[trigger]
            calls_nothing(environment.pushed(), object) == calls_nothing(environment, object),
        forall|object: ObjectModel| #[trigger]
            value(environment.pushed(), object) == value(environment, object),
{
    let pushed = environment.pushed();
    assert(pushed.call_stack.drop_last() =~= environment.call_stack);
    assert forall|name: Seq<char>| #[trigger]
        pushed.resolve(name) == environment.resolve(name) by {
        assert(!pushed.call_stack.last().contains_key(name));
        assert(search(pushed.call_stack, name) == search(environment.call_stack, name));
    }
    assert forall|object: ObjectModel| #[trigger]
        calls_nothing(pushed, object) == calls_nothing(environment, object) by {
        lemma_same_bindings_call_the_same(pushed, environment, object);
    }
    assert forall|object: ObjectModel| #[trigger]
        value(pushed, object) == value(environment, object) by {
        lemma_same_bindings_give_the_same(pushed, environment, object);
    }
}

/// Two environments that bind every name alike reach a built-in function on
/// the same objects.
pub proof fn lemma_same_bindings_call_the_same<F>(
    one: EnvironmentModel<F>,
    other: EnvironmentModel<F>,
    object: ObjectModel,
)
    requires
        forall|name: Seq<char>| #[trigger] one.resolve(name) == other.resolve(name),
    ensures
        calls_nothing(one, object) == calls_nothing(other, object),
    decreases object,
{
    match object {
        ObjectModel::Node(objects) => {
            assert forall|i: int| 0 <= i < objects.len() implies calls_nothing(
                one,
                #[trigger] objects[i],
            ) == calls_nothing(other, objects[i]) by {
                lemma_same_bindings_call_the_same(one, other, objects[i]);
            }
        },
        _ => {},
    }
}

/// Two environments that bind every name alike give the same for every object.
pub proof fn lemma_same_bindings_give_the_same<F>(
    one: EnvironmentModel<F>,
    other: EnvironmentModel<F>,
    object: ObjectModel,
)
    requires
        forall|name: Seq<char>| #[trigger] one.resolve(name) == other.resolve(name),
    ensures
        value(one, object) == value(other, object),
    decreases object, 0nat,
{
    match object {
        ObjectModel::Node(objects) => {
            if objects.len() == 1 {
                lemma_same_bindings_give_the_same(one, other, objects[0]);
            } else if objects.len() > 1 {
                match objects[0] {
                    ObjectModel::Symbol(name) => {
                        match one.resolve(name) {
                            Some(SymbolModel::Object(first)) => {
                                lemma_same_bindings_give_the_same_each(
                                    one,
                                    other,
                                    objects,
                                    1,
                                    seq![first],
                                );
                            },
                            _ => {},
                        }
                    },
                    _ => {
                        lemma_same_bindings_give_the_same_each(one, other, objects, 0, Seq::empty());
                    },
                }
            }
        },
        _ => {},
    }
}

/// Two environments that bind every name alike give the same for every run of objects.
pub proof fn lemma_same_bindings_give_the_same_each<F>(
    one: EnvironmentModel<F>,
    other: EnvironmentModel<F>,
    objects: Seq<ObjectModel>,
    from: int,
    done: Seq<ObjectModel>,
)
    requires
        forall|name: Seq<char>| #[trigger] one.resolve(name) == other.resolve(name),
    ensures
        values(one, objects, from, done) == values(other, objects, from, done),
    decreases objects, objects.len() - from,
{
    if 0 <= from < objects.len() {
        lemma_same_bindings_give_the_same(one, other, objects[from]);
        match value(one, objects[from]) {
            Ok(given) => {
                lemma_same_bindings_give_the_same_each(one, other, objects, from + 1, done.push(given));
            },
            Err(_) => {},
        }
    }
}

/// An evaluation that reaches no built-in function leaves the environment as
/// it was, frames and bindings, and gives what `value` says: on success and
/// on failure alike.
pub proof fn lemma_evaluation_without_built_in<F: BuiltInFunc>(
    arg: &F::Arg,
    before: EnvironmentModel<F>,
    object: ObjectModel,
    after: EnvironmentModel<F>,
    result: Result<ObjectModel, ErrorModel>,
)
    requires
        calls_nothing(before, object),
        evaluates(arg, before, object, after, result),
    ensures
        after == before,
        result == value(before, object),
    decreases object, 1nat,
{
    lemma_pushed_frame_binds_nothing(before);
    let inner = choose|inner: EnvironmentModel<F>|
        #![trigger inner.popped()]
        after == inner.popped() && evaluates_within(arg, before.pushed(), object, inner, result);
    lemma_evaluation_within_without_built_in(arg, before.pushed(), object, inner, result);
}

/// `lemma_evaluation_without_built_in`, within the frame pushed for the evaluation.
pub proof fn lemma_evaluation_within_without_built_in<F: BuiltInFunc>(
    arg: &F::Arg,
    before: EnvironmentModel<F>,
    object: ObjectModel,
    after: EnvironmentModel<F>,
    result: Result<ObjectModel, ErrorModel>,
)
    requires
        calls_nothing(before, object),
        evaluates_within(arg, before, object, after, result),
    ensures
        after == before,
        result == value(before, object),
    decreases object, 0nat,
{
    match object {
        ObjectModel::Node(objects) => {
            if objects.len() == 1 {
                lemma_evaluation_without_built_in(arg, before, objects[0], after, result);
            } else if objects.len() > 1 {
                lemma_pushed_frame_binds_nothing(before);
                let inner = choose|inner: EnvironmentModel<F>|
                    #![trigger inner.popped()]
                    after == inner.popped() && invokes_within(
                        arg,
                        before.pushed(),
                        objects,
                        inner,
                        result,
                    );
                let pushed = before.pushed();
                assert(calls_nothing(pushed, objects[0]));
                assert forall|i: int| 0 <= i < objects.len() implies calls_nothing(
                    pushed,
                    #[trigger] objects[i],
                ) by {
                    assert(calls_nothing(before, objects[i]));
                }
                match objects[0] {
                    ObjectModel::Symbol(name) => {
                        match pushed.resolve(name) {
                            Some(SymbolModel::Object(first)) => {
                                lemma_each_without_built_in(
                                    arg,
                                    pushed,
                                    objects,
                                    1,
                                    seq![first],
                                    inner,
                                    result,
                                );
                                lemma_same_bindings_give_the_same_each(
                                    pushed,
                                    before,
                                    objects,
                                    1,
                                    seq![first],
                                );
                            },
                            _ => {},
                        }
                    },
                    _ => {
                        lemma_each_without_built_in(
                            arg,
                            pushed,
                            objects,
                            0,
                            Seq::empty(),
                            inner,
                            result,
                        );
                        lemma_same_bindings_give_the_same_each(
                            pushed,
                            before,
                            objects,
                            0,
                            Seq::empty(),
                        );
                    },
                }
            }
        },
        _ => {},
    }
}

/// `lemma_evaluation_without_built_in`, of a run of objects.
pub proof fn lemma_each_without_built_in<F: BuiltInFunc>(
    arg: &F::Arg,
    before: EnvironmentModel<F>,
    objects: Seq<ObjectModel>,
    from: int,
    done: Seq<ObjectModel>,
    after: EnvironmentModel<F>,
    result: Result<ObjectModel, ErrorModel>,
)
    requires
        forall|i: int| 0 <= i < objects.len() ==> calls_nothing(before, #[trigger] objects[i]),
        evaluates_each(arg, before, objects, from, done, after, result),
    ensures
        after == before,
        result == values(before, objects, from, done),
    decreases objects, objects.len() - from,
{
    if 0 <= from < objects.len() {
        let (middle, given) = choose|
            middle: EnvironmentModel<F>,
            given: Result<ObjectModel, ErrorModel>,
        |
            #![trigger crate::lisp::semantics::step(middle, given)]
            crate::lisp::semantics::step(middle, given) && evaluates(
                arg,
                before,
                objects[from],
                middle,
                given,
            ) && match given {
                Ok(value) => evaluates_each(
                    arg,
                    middle,
                    objects,
                    from + 1,
                    done.push(value),
                    after,
                    result,
                ),
                Err(error) => after == middle && result == Err::<ObjectModel, ErrorModel>(error),
            };
        lemma_evaluation_without_built_in(arg, before, objects[from], middle, given);
        match given {
            Ok(value) => {
                lemma_each_without_built_in(
                    arg,
                    before,
                    objects,
                    from + 1,
                    done.push(value),
                    after,
                    result,
                );
            },
            Err(_) => {},
        }
    }
}

/// The empty node gives itself and leaves the environment as it was, and its
/// canonical text is `()`.
pub proof fn lemma_empty_node_gives_itself<F: BuiltInFunc>(
    arg: &F::Arg,
    before: EnvironmentModel<F>,
    after: EnvironmentModel<F>,
    result: Result<ObjectModel, ErrorModel>,
)
    requires
        evaluates(arg, before, nil(), after, result),
    ensures
        after == before,
        result == Ok::<ObjectModel, ErrorModel>(nil()),
        render(nil()) == "()"@,
{
    assert(nil()->Node_0.len() == 0);
    lemma_evaluation_without_built_in(arg, before, nil(), after, result);
    reveal_strlit("()");
    assert(render(nil()) =~= "()"@);
}

/// A symbol that neither the global frame nor any frame of the call stack
/// binds fails as not found, and the environment is left as it was: no frame
/// stays on the call stack.
pub proof fn lemma_unbound_symbol_fails<F: BuiltInFunc>(
    arg: &F::Arg,
    before: EnvironmentModel<F>,
    name: Seq<char>,
    after: EnvironmentModel<F>,
    result: Result<ObjectModel, ErrorModel>,
)
    requires
        before.resolve(name) is None,
        evaluates(arg, before, ObjectModel::Symbol(name), after, result),
    ensures
        after == before,
        result == unbound(name),
{
    lemma_evaluation_without_built_in(arg, before, ObjectModel::Symbol(name), after, result);
}

/// Whether every built-in function leaves as many frames on the call stack
/// as it found.
pub open spec fn built_ins_keep_depth<F: BuiltInFunc>() -> bool {
    forall|
        function: F,
        arg: &F::Arg,
        before: EnvironmentModel<F>,
        arguments: Seq<ObjectModel>,
        after: EnvironmentModel<F>,
        result: Result<ObjectModel, ErrorModel>,
    | #[trigger]
        function.invoked(arg, before, arguments, after, result) ==> after.call_stack.len()
            == before.call_stack.len()
}

/// Where the built-in functions leave as many frames as they found, so does
/// every evaluation, whether it succeeds or fails: no frame stays behind.
pub proof fn lemma_call_stack_restored<F: BuiltInFunc>(
    arg: &F::Arg,
    before: EnvironmentModel<F>,
    object: ObjectModel,
    after: EnvironmentModel<F>,
    result: Result<ObjectModel, ErrorModel>,
)
    requires
        built_ins_keep_depth::<F>(),
        evaluates(arg, before, object, after, result),
    ensures
        after.call_stack.len() == before.call_stack.len(),
    decreases object, 1nat,
{
    let inner = choose|inner: EnvironmentModel<F>|
        #![trigger inner.popped()]
        after == inner.popped() && evaluates_within(arg, before.pushed(), object, inner, result);
    lemma_call_stack_restored_within(arg, before.pushed(), object, inner, result);
}

/// `lemma_call_stack_restored`, within the frame pushed for the evaluation.
pub proof fn lemma_call_stack_restored_within<F: BuiltInFunc>(
    arg: &F::Arg,
    before: EnvironmentModel<F>,
    object: ObjectModel,
    after: EnvironmentModel<F>,
    result: Result<ObjectModel, ErrorModel>,
)
    requires
        built_ins_keep_depth::<F>(),
        evaluates_within(arg, before, object, after, result),
    ensures
        after.call_stack.len() == before.call_stack.len(),
    decreases object, 0nat,
{
    match object {
        ObjectModel::Node(objects) => {
            if objects.len() == 1 {
                lemma_call_stack_restored(arg, before, objects[0], after, result);
            } else if objects.len() > 1 {
                let inner = choose|inner: EnvironmentModel<F>|
                    #![trigger inner.popped()]
                    after == inner.popped() && invokes_within(
                        arg,
                        before.pushed(),
                        objects,
                        inner,
                        result,
                    );
                let pushed = before.pushed();
                match objects[0] {
                    ObjectModel::Symbol(name) => {
                        match pushed.resolve(name) {
                            Some(SymbolModel::Object(first)) => {
                                lemma_call_stack_restored_each(
                                    arg,
                                    pushed,
                                    objects,
                                    1,
                                    seq![first],
                                    inner,
                                    result,
                                );
                            },
                            _ => {},
                        }
                    },
                    _ => {
                        lemma_call_stack_restored_each(
                            arg,
                            pushed,
                            objects,
                            0,
                            Seq::empty(),
                            inner,
                            result,
                        );
                    },
                }
            }
        },
        _ => {},
    }
}

/// `lemma_call_stack_restored`, of a run of objects.
pub proof fn lemma_call_stack_restored_each<F: BuiltInFunc>(
    arg: &F::Arg,
    before: EnvironmentModel<F>,
    objects: Seq<ObjectModel>,
    from: int,
    done: Seq<ObjectModel>,
    after: EnvironmentModel<F>,
    result: Result<ObjectModel, ErrorModel>,
)
    requires
        built_ins_keep_depth::<F>(),
        evaluates_each(arg, before, objects, from, done, after, result),
    ensures
        after.call_stack.len() == before.call_stack.len(),
    decreases objects, objects.len() - from,
{
    if 0 <= from < objects.len() {
        let (middle, given) = choose|
            middle: EnvironmentModel<F>,
            given: Result<ObjectModel, ErrorModel>,
        |
            #![trigger crate::lisp::semantics::step(middle, given)]
            crate::lisp::semantics::step(middle, given) && evaluates(
                arg,
                before,
                objects[from],
                middle,
                given,
            ) && match given {
                Ok(value) => evaluates_each(
                    arg,
                    middle,
                    objects,
                    from + 1,
                    done.push(value),
                    after,
                    result,
                ),
                Err(error) => after == middle && result == Err::<ObjectModel, ErrorModel>(error),
            };
        lemma_call_stack_restored(arg, before, objects[from], middle, given);
        match given {
            Ok(value) => {
                lemma_call_stack_restored_each(
                    arg,
                    middle,
                    objects,
                    from + 1,
                    done.push(value),
                    after,
                    result,
                );
            },
            Err(_) => {},
        }
    }
}

/// Whether every built-in function leaves the global frame and all frames of
/// the call stack as it found them, but for the innermost, its own.
pub open spec fn built_ins_keep_to_their_frame<F: BuiltInFunc>() -> bool {
    forall|
        function: F,
        arg: &F::Arg,
        before: EnvironmentModel<F>,
        arguments: Seq<ObjectModel>,
        after: EnvironmentModel<F>,
        result: Result<ObjectModel, ErrorModel>,
    | #[trigger]
        function.invoked(arg, before, arguments, after, result) ==> after.call_stack.len()
            == before.call_stack.len() && after.popped() == before.popped()
}

/// Where the built-in functions bind names in their own frame only, every
/// evaluation leaves the environment as it was: what an invocation binds is
/// gone when it returns, on success and on failure.
pub proof fn lemma_bindings_end_with_invocation<F: BuiltInFunc>(
    arg: &F::Arg,
    before: EnvironmentModel<F>,
    object: ObjectModel,
    after: EnvironmentModel<F>,
    result: Result<ObjectModel, ErrorModel>,
)
    requires
        built_ins_keep_to_their_frame::<F>(),
        evaluates(arg, before, object, after, result),
    ensures
        after == before,
    decreases object, 1nat,
{
    lemma_pushed_frame_binds_nothing(before);
    let inner = choose|inner: EnvironmentModel<F>|
        #![trigger inner.popped()]
        after == inner.popped() && evaluates_within(arg, before.pushed(), object, inner, result);
    lemma_bindings_end_within(arg, before.pushed(), object, inner, result);
}

/// `lemma_bindings_end_with_invocation`, within the frame pushed for the
/// evaluation: only that frame can have changed.
pub proof fn lemma_bindings_end_within<F: BuiltInFunc>(
    arg: &F::Arg,
    before: EnvironmentModel<F>,
    object: ObjectModel,
    after: EnvironmentModel<F>,
    result: Result<ObjectModel, ErrorModel>,
)
    requires
        built_ins_keep_to_their_frame::<F>(),
        evaluates_within(arg, before, object, after, result),
    ensures
        after.call_stack.len() == before.call_stack.len(),
        after.popped() == before.popped(),
    decreases object, 0nat,
{
    match object {
        ObjectModel::Node(objects) => {
            if objects.len() == 1 {
                lemma_bindings_end_with_invocation(arg, before, objects[0], after, result);
            } else if objects.len() > 1 {
                lemma_pushed_frame_binds_nothing(before);
                let inner = choose|inner: EnvironmentModel<F>|
                    #![trigger inner.popped()]
                    after == inner.popped() && invokes_within(
                        arg,
                        before.pushed(),
                        objects,
                        inner,
                        result,
                    );
                let pushed = before.pushed();
                match objects[0] {
                    ObjectModel::Symbol(name) => {
                        match pushed.resolve(name) {
                            Some(SymbolModel::Object(first)) => {
                                lemma_bindings_end_each(
                                    arg,
                                    pushed,
                                    objects,
                                    1,
                                    seq![first],
                                    inner,
                                    result,
                                );
                            },
                            _ => {},
                        }
                    },
                    _ => {
                        lemma_bindings_end_each(
                            arg,
                            pushed,
                            objects,
                            0,
                            Seq::empty(),
                            inner,
                            result,
                        );
                    },
                }
            }
        },
        _ => {},
    }
}

/// `lemma_bindings_end_with_invocation`, of a run of objects.
pub proof fn lemma_bindings_end_each<F: BuiltInFunc>(
    arg: &F::Arg,
    before: EnvironmentModel<F>,
    objects: Seq<ObjectModel>,
    from: int,
    done: Seq<ObjectModel>,
    after: EnvironmentModel<F>,
    result: Result<ObjectModel, ErrorModel>,
)
    requires
        built_ins_keep_to_their_frame::<F>(),
        evaluates_each(arg, before, objects, from, done, after, result),
    ensures
        after == before,
    decreases objects, objects.len() - from,
{
    if 0 <= from < objects.len() {
        let (middle, given) = choose|
            middle: EnvironmentModel<F>,
            given: Result<ObjectModel, ErrorModel>,
        |
            #![trigger crate::lisp::semantics::step(middle, given)]
            crate::lisp::semantics::step(middle, given) && evaluates(
                arg,
                before,
                objects[from],
                middle,
                given,
            ) && match given {
                Ok(value) => evaluates_each(
                    arg,
                    middle,
                    objects,
                    from + 1,
                    done.push(value),
                    after,
                    result,
                ),
                Err(error) => after == middle && result == Err::<ObjectModel, ErrorModel>(error),
            };
        lemma_bindings_end_with_invocation(arg, before, objects[from], middle, given);
        match given {
            Ok(value) => {
                lemma_bindings_end_each(
                    arg,
                    middle,
                    objects,
                    from + 1,
                    done.push(value),
                    after,
                    result,
                );
            },
            Err(_) => {},
        }
    }
}

} // verus!
