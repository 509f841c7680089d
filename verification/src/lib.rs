//! Logical planning for a small embedded query engine.
//!
//! A parsed select statement is turned into a tree of plan operators: a data
//! source at the bottom, then, where the statement asks for them, a projection,
//! a filter, a grouping and a row limit, always nested in that order.
pub mod common;
pub mod logical;
pub mod syntax;
