//! A predicate language for selecting filesystem entries, in the manner of
//! `find`: an expression compiler from text to a syntax tree, and an evaluator
//! of that tree against one entry's metadata.
//!
//! - [`ast`] holds the syntax tree; [`text`] and [`grammar`] say what text
//!   means as words and as syntax, and [`parser`] compiles text accordingly.
//! - [`entry`] holds what the evaluator is told of an entry and of the world;
//!   [`semantics`] says when an expression holds, and [`interpreter`]
//!   decides it. [`pattern`] is where globs and regular expressions are
//!   handed to the crates that match them.
//! - [`laws`] and [`grammar_laws`] state and prove what holds of all
//!   expressions.

pub mod ast;
pub mod entry;
pub mod grammar;
pub mod grammar_laws;
pub mod interpreter;
pub mod laws;
pub mod parser;
pub mod pattern;
pub mod semantics;
pub mod text;
