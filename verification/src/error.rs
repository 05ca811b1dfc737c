//! The kinds of failure that the tool tells apart.
use vstd::prelude::*;

verus! {

/// Why a step of a workflow failed.
#[derive(Debug)]
pub enum StackError {
    /// An expected configuration file is missing.
    NotFound,
    /// A configuration file does not have the expected shape.
    Malformed,
    /// The file system refused a read or a write.
    IOError,
    /// An external program could not be started.
    LaunchError,
    /// An external program ended with a failure status.
    ExecutionError,
    /// The registry could not be reached, or its answer could not be read.
    TransportError,
    /// The registry rejected a request; `code` is what it reported.
    ApiError { code: String },
    /// The command line, or a value on it, is not acceptable.
    ValidationError,
}

} // verus!
