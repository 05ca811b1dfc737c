//! Scaffolding and registry synchronisation rules for model deployment projects.
//!
//! The crate holds the decisions of the tool: how names are normalised, which
//! action a set of command-line flags selects, what the configuration files
//! and the registry's messages hold, which registry entries a synchronisation
//! creates and which it reports, which folders and files a new project or
//! model gets. Reading and writing files, talking to the registry and
//! starting processes are left to the caller: the functions here take what
//! was read and give what is to be done.
pub mod args;
pub mod constants;
pub mod error;
pub mod git;
pub mod mlflow;
pub mod options;
pub mod text;
pub mod util;
