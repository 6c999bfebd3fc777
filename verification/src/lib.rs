//! A small embeddable Lisp.
//!
//! A program is a text in parentheses. `lisp::AbstractSyntaxTree` parses it
//! into groups and tokens, `lisp::ExecutionTree` reads each token as the
//! object it stands for, and `lisp::Environment` evaluates the tree over a
//! global frame and a call stack of frames, handing invocations to the
//! built-in functions that the host binds (`lisp::BuiltInFunc`). The result
//! is written out as canonical text.
//!
//! What each step does is stated in `lisp::grammar`, `lisp::literal`,
//! `lisp::object_model` and `lisp::semantics`, and what holds of them all in
//! `lisp::laws`, `lisp::round_trip` and `lisp::program_round_trip`.

pub mod error;
pub mod lisp;
pub mod string;
