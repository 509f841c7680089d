//! The parsed form of a query, as the surface parser hands it over.
pub mod ast;
