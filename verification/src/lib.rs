//! The front end of a type checker for a dynamic language.
//!
//! A parsed file comes in as a [`ast::Module`]. [`nodes::EnderpyFile::from`]
//! turns it into the per-file unit: the tree, an empty symbol table, and the
//! imports and function definitions of the top level.
//! [`semantic_analyzer::SemanticAnalyzer`] then goes through the definitions
//! and binds the names that assignments introduce.
//!
//! Both passes implement [`ast_visitor::TraversalVisitor`], the contract of
//! every pass over the tree. Contracts speak of the tree through its view
//! ([`ast_view`]), in which vectors are sequences and strings are sequences of
//! characters.

/// The syntax tree.
pub mod ast;
/// Deep copies of syntax trees.
pub mod ast_clone;
/// Span lookup and the form of a node.
pub mod ast_kind;
/// The mathematical model of the syntax tree.
pub mod ast_view;
/// The traversal contract and the full-depth walk.
pub mod ast_visitor;
/// What the parser reports.
pub mod diagnostics;
/// The per-file unit and its converter.
pub mod nodes;
/// The name and the coarse type that the binding rule reads off an expression.
pub mod semanal_utils;
/// The pass that binds names.
pub mod semantic_analyzer;
/// Spans for the diagnostic renderer.
pub mod span;
/// What a pass over one file works on.
pub mod state;
/// The symbol table of one scope.
pub mod symbol_table;
