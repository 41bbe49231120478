//! An embeddable scripting engine: dynamic values, variable scopes, a function
//! registry with deterministic dispatch, a tree-walking evaluator and an
//! AST-level optimizer.

pub mod token;
pub mod text;
pub mod any;
pub mod result;
pub mod scope;
pub mod utils;
pub mod parser;
pub mod model;
pub mod rewrite;
pub mod optimize;
pub mod packages;
pub mod target;
pub mod engine;
pub mod semantics;
pub mod eval;
pub mod intern;
pub mod api;
pub mod fn_register;
pub mod laws;
