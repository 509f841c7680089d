//! The logical plan and the planner that builds it.
pub mod parser;
pub mod theorems;
pub mod translation;
pub mod types;
