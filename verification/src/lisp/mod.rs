//! The language: parsing, the typed execution tree, and evaluation.

pub mod abstract_syntax_tree;
pub mod abstract_syntax_tree_node;
pub mod abstract_syntax_tree_object;
pub mod built_in_func;
pub mod conversion;
pub mod environment;
pub mod environment_model;
pub mod execution_tree;
pub mod execution_tree_node;
pub mod execution_tree_object;
pub mod frame;
pub mod grammar;
pub mod last_char_type;
pub mod laws;
pub mod literal;
pub mod object_model;
pub mod program_round_trip;
pub mod round_trip;
pub mod semantics;
pub mod symbol;
pub mod syntax_model;

pub use self::abstract_syntax_tree::AbstractSyntaxTree;
pub use self::abstract_syntax_tree_node::AbstractSyntaxTreeNode;
pub use self::abstract_syntax_tree_object::AbstractSyntaxTreeObject;
pub use self::built_in_func::BuiltInFunc;
pub use self::environment::Environment;
pub use self::environment_model::EnvironmentModel;
pub use self::execution_tree::ExecutionTree;
pub use self::execution_tree_node::ExecutionTreeNode;
pub use self::execution_tree_object::ExecutionTreeObject;
pub use self::frame::Frame;
pub use self::last_char_type::LastCharType;
pub use self::object_model::ObjectModel;
pub use self::symbol::Symbol;
pub use self::symbol::SymbolModel;
pub use self::syntax_model::SyntaxModel;
