//! Executable lowering of the abstract syntax tree into the C intermediate
//! representation, verified against the spec model in `backend::model`.
pub mod decl;
pub mod exp;
pub mod program;
pub mod stmt;
