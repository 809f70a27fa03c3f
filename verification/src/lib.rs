//! A loader for serialized visual-block programming projects.
//!
//! The input is an XML document describing a project: a set of named roles,
//! each with global variables, a stage and sprites, each sprite owning fields
//! and event-triggered scripts made of nested blocks. The library decodes that
//! document into a fully resolved, typed abstract syntax tree, resolving every
//! variable reference against the local, field and global scopes and checking
//! that names stay unique under a pluggable renaming transform.

pub mod ast;
pub mod error;
pub mod expr;
pub mod json;
pub mod project;
pub mod script;
pub mod symbol;
pub mod text;
pub mod xml_tree;
