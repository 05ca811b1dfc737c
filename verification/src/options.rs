//! The workflows behind the command-line actions.
pub mod sync;
pub mod experiment;
pub mod init;
pub mod run;
