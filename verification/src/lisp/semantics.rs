//! What evaluation does: the environments it may leave and the results it may
//! give, as far as the built-in functions of the host allow.

use crate::error::ErrorModel;
use crate::lisp::built_in_func::BuiltInFunc;
use crate::lisp::environment_model::EnvironmentModel;
use crate::lisp::object_model::nil;
use crate::lisp::object_model::ObjectModel;
use crate::lisp::symbol::SymbolModel;
use vstd::prelude::*;

verus! {

/// The failure for a name that neither the global frame nor the call stack binds.
pub open spec fn unbound(name: Seq<char>) -> Result<ObjectModel, ErrorModel> {
    Err(ErrorModel::SymbolNotOnStack { symbol: name })
}

/// Names an environment and a result as those that one object of a run left
/// and gave. It holds of any two.
pub open spec fn step<F>(
    environment: EnvironmentModel<F>,
    given: Result<ObjectModel, ErrorModel>,
) -> bool {
    true
}

/// Whether the evaluation of `object` in the environment `before` may leave
/// the environment `after` and give `result`. The evaluation works in a frame
/// of its own, pushed before and popped after, whatever the result.
pub open spec fn evaluates<F: BuiltInFunc>(
    arg: &F::Arg,
    before: EnvironmentModel<F>,
    object: ObjectModel,
    after: EnvironmentModel<F>,
    result: Result<ObjectModel, ErrorModel>,
) -> bool
    decreases object, 1nat,
{
    exists|inner: EnvironmentModel<F>|
        #![trigger inner.popped()]
        after == inner.popped() && evaluates_within(arg, before.pushed(), object, inner, result)
}

/// The evaluation of `object` within the frame pushed for it.
///
/// A node without objects gives itself. A node of one object gives what that
/// object gives. A node of more is an invocation. A symbol bound to an object
/// gives the object; one bound to a built-in function invokes it without
/// arguments; one that is not bound fails. Any other object gives itself.
pub open spec fn evaluates_within<F: BuiltInFunc>(
    arg: &F::Arg,
    before: EnvironmentModel<F>,
    object: ObjectModel,
    after: EnvironmentModel<F>,
    result: Result<ObjectModel, ErrorModel>,
) -> bool
    decreases object, 0nat,
{
    match object {
        ObjectModel::Node(objects) => if objects.len() == 0 {
            after == before && result == Ok::<ObjectModel, ErrorModel>(nil())
        } else if objects.len() == 1 {
            evaluates(arg, before, objects[0], after, result)
        } else {
            invokes(arg, before, objects, after, result)
        },
        ObjectModel::Symbol(name) => match before.resolve(name) {
            Some(SymbolModel::BuiltInFunc(function)) => function.invoked(
                arg,
                before,
                Seq::empty(),
                after,
                result,
            ),
            Some(SymbolModel::Object(value)) => after == before && result == Ok::<
                ObjectModel,
                ErrorModel,
            >(value),
            None => after == before && result == unbound(name),
        },
        _ => after == before && result == Ok::<ObjectModel, ErrorModel>(object),
    }
}

/// Whether the invocation `objects` in the environment `before` may leave the
/// environment `after` and give `result`. It works in a frame of its own.
pub open spec fn invokes<F: BuiltInFunc>(
    arg: &F::Arg,
    before: EnvironmentModel<F>,
    objects: Seq<ObjectModel>,
    after: EnvironmentModel<F>,
    result: Result<ObjectModel, ErrorModel>,
) -> bool
    decreases objects, objects.len() + 2,
{
    exists|inner: EnvironmentModel<F>|
        #![trigger inner.popped()]
        after == inner.popped() && invokes_within(arg, before.pushed(), objects, inner, result)
}

/// The invocation `objects` within the frame pushed for it.
///
/// Where the first object is a symbol bound to a built-in function, the
/// function is invoked with the other objects as they stand. Where it is a
/// symbol bound to an object, the result is a node of that object and of what
/// each of the other objects gives. Where it is anything else, the result is
/// a node of what each object gives, the first included.
pub open spec fn invokes_within<F: BuiltInFunc>(
    arg: &F::Arg,
    before: EnvironmentModel<F>,
    objects: Seq<ObjectModel>,
    after: EnvironmentModel<F>,
    result: Result<ObjectModel, ErrorModel>,
) -> bool
    decreases objects, objects.len() + 1,
{
    if objects.len() == 0 {
        after == before && result == Ok::<ObjectModel, ErrorModel>(nil())
    } else {
        match objects[0] {
            ObjectModel::Symbol(name) => match before.resolve(name) {
                Some(SymbolModel::BuiltInFunc(function)) => function.invoked(
                    arg,
                    before,
                    objects.drop_first(),
                    after,
                    result,
                ),
                Some(SymbolModel::Object(value)) => evaluates_each(
                    arg,
                    before,
                    objects,
                    1,
                    seq![value],
                    after,
                    result,
                ),
                None => after == before && result == unbound(name),
            },
            _ => evaluates_each(arg, before, objects, 0, Seq::empty(), after, result),
        }
    }
}

/// Whether the evaluation of the objects from `from` on, one after the other,
/// each in the environment that the one before it left, may leave the
/// environment `after` and give `result`: a node of `done` and of what the
/// objects give, or the failure of the first that fails.
pub open spec fn evaluates_each<F: BuiltInFunc>(
    arg: &F::Arg,
    before: EnvironmentModel<F>,
    objects: Seq<ObjectModel>,
    from: int,
    done: Seq<ObjectModel>,
    after: EnvironmentModel<F>,
    result: Result<ObjectModel, ErrorModel>,
) -> bool
    decreases objects, objects.len() - from,
{
    if from < 0 || from >= objects.len() {
        after == before && result == Ok::<ObjectModel, ErrorModel>(ObjectModel::Node(done))
    } else {
        exists|middle: EnvironmentModel<F>, given: Result<ObjectModel, ErrorModel>|
            #![trigger step(middle, given)]
            step(middle, given) && evaluates(arg, before, objects[from], middle, given)
                && match given {
                Ok(value) => evaluates_each(
                    arg,
                    middle,
                    objects,
                    from + 1,
                    done.push(value),
                    after,
                    result,
                ),
                Err(error) => after == middle && result == Err::<ObjectModel, ErrorModel>(error),
            }
    }
}

/// What the text of a result is: the canonical text of the object, or the failure.
pub open spec fn rendered(given: Result<ObjectModel, ErrorModel>) -> Result<Seq<char>, ErrorModel> {
    match given {
        Ok(object) => Ok(crate::lisp::object_model::render(object)),
        Err(error) => Err(error),
    }
}

/// Whether the execution of the tree `objects` in the environment `before`
/// may leave the environment `after` and give the text `result`: the tree is
/// evaluated as a node, and what it gives is written out.
pub open spec fn executes<F: BuiltInFunc>(
    arg: &F::Arg,
    before: EnvironmentModel<F>,
    objects: Seq<ObjectModel>,
    after: EnvironmentModel<F>,
    result: Result<Seq<char>, ErrorModel>,
) -> bool {
    exists|given: Result<ObjectModel, ErrorModel>|
        #![trigger rendered(given)]
        result == rendered(given) && evaluates(
            arg,
            before,
            ObjectModel::Node(objects),
            after,
            given,
        )
}

/// Whether parsing `source` and executing its tree in the environment
/// `before` may leave the environment `after` and give the text `result`.
/// Where the text cannot be parsed, or a token stands for no object, that is
/// the failure, and the environment is left as it was.
pub open spec fn parses_and_executes<F: BuiltInFunc>(
    arg: &F::Arg,
    before: EnvironmentModel<F>,
    source: Seq<char>,
    after: EnvironmentModel<F>,
    result: Result<Seq<char>, ErrorModel>,
) -> bool {
    match crate::lisp::grammar::parse(source) {
        Ok(group) => match crate::lisp::execution_tree::lower(group) {
            Ok(objects) => executes(arg, before, objects, after, result),
            Err(error) => after == before && result == Err::<Seq<char>, ErrorModel>(error),
        },
        Err(error) => after == before && result == Err::<Seq<char>, ErrorModel>(error),
    }
}

/// Whether no symbol within `object` is bound to a built-in function in `environment`.
pub open spec fn calls_nothing<F>(environment: EnvironmentModel<F>, object: ObjectModel) -> bool
    decreases object,
{
    match object {
        ObjectModel::Node(objects) => forall|i: int|
            0 <= i < objects.len() ==> calls_nothing(environment, #[trigger] objects[i]),
        ObjectModel::Symbol(name) => !(environment.resolve(name) matches Some(
            SymbolModel::BuiltInFunc(_),
        )),
        _ => true,
    }
}

/// What `object` gives in `environment`, where the evaluation reaches no
/// built-in function.
pub open spec fn value<F>(environment: EnvironmentModel<F>, object: ObjectModel) -> Result<
    ObjectModel,
    ErrorModel,
>
    decreases object, 0nat,
{
    match object {
        ObjectModel::Node(objects) => if objects.len() == 0 {
            Ok(nil())
        } else if objects.len() == 1 {
            value(environment, objects[0])
        } else {
            match objects[0] {
                ObjectModel::Symbol(name) => match environment.resolve(name) {
                    Some(SymbolModel::Object(first)) => values(environment, objects, 1, seq![first]),
                    _ => unbound(name),
                },
                _ => values(environment, objects, 0, Seq::empty()),
            }
        },
        ObjectModel::Symbol(name) => match environment.resolve(name) {
            Some(SymbolModel::Object(bound)) => Ok(bound),
            _ => unbound(name),
        },
        _ => Ok(object),
    }
}

/// A node of `done` and of what each of `objects` from `from` on gives, or
/// the failure of the first that fails.
pub open spec fn values<F>(
    environment: EnvironmentModel<F>,
    objects: Seq<ObjectModel>,
    from: int,
    done: Seq<ObjectModel>,
) -> Result<ObjectModel, ErrorModel>
    decreases objects, objects.len() - from,
{
    if from < 0 || from >= objects.len() {
        Ok(ObjectModel::Node(done))
    } else {
        match value(environment, objects[from]) {
            Ok(given) => values(environment, objects, from + 1, done.push(given)),
            Err(error) => Err(error),
        }
    }
}

/// Whether the program `source` is read as a tree in which no symbol is bound
/// to a built-in function in `environment`.
pub open spec fn program_calls_nothing<F>(environment: EnvironmentModel<F>, source: Seq<char>) -> bool {
    match crate::lisp::grammar::parse(source) {
        Ok(group) => match crate::lisp::execution_tree::lower(group) {
            Ok(objects) => calls_nothing(environment, ObjectModel::Node(objects)),
            Err(_) => true,
        },
        Err(_) => true,
    }
}

/// The text that the program `source` gives in `environment`, where its
/// evaluation reaches no built-in function: the failure to parse it or to
/// read its tokens, or the text of what its tree gives.
pub open spec fn program_value<F>(environment: EnvironmentModel<F>, source: Seq<char>) -> Result<
    Seq<char>,
    ErrorModel,
> {
    match crate::lisp::grammar::parse(source) {
        Ok(group) => match crate::lisp::execution_tree::lower(group) {
            Ok(objects) => rendered(
                value(environment, ObjectModel::Node(objects)),
            ),
            Err(error) => Err(error),
        },
        Err(error) => Err(error),
    }
}

} // verus!
