//! What an object of the syntax tree holds, as plain values.

use vstd::prelude::*;

verus! {

/// An object of the syntax tree: a group as the sequence of its objects, a
/// token as its characters, quotes included where it was quoted.
pub enum SyntaxModel {
    Node(Seq<SyntaxModel>),
    String(Seq<char>),
}

} // verus!
