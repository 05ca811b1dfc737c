//! Helpers shared by the workflows.
pub mod file;
pub mod formatting;
