//! A resolved syntax tree is represented as a `Program` without implicit type literals.
pub mod ast;
pub mod circuits;
pub mod common;
pub mod decimal;
pub mod errors;
pub mod expressions;
pub mod functions;
pub mod programs;
pub mod resolver;
pub mod search;
pub mod state;
pub mod sequence;
pub mod statements;
pub mod symbol_table;
pub mod types;
pub mod laws;
