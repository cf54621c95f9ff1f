//! A verified compiler for a small statically typed language: source text is
//! parsed into an abstract syntax tree, the tree is lowered into a typed C
//! intermediate representation, and that representation is rendered as a
//! freestanding C translation unit.
pub mod ast;
pub mod backend;
pub mod cgen;
pub mod parser;
pub mod text;
