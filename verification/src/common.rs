//! Types shared by every stage of the engine.
pub mod text;
pub mod types;
