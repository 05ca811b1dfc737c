//! Names of the folders, files and placeholders that the tool works with.
pub mod configuration;
pub mod placeholders;
