//! Configuration records of a project, its models and a model repository,
//! and what loading and saving them comes to.
pub mod document;
pub mod model;
pub mod model_repository;
pub mod project;
pub mod tag;

use crate::error::StackError;
use vstd::prelude::*;
use vstd::string::*;

verus! {

/// What was found where a configuration file is expected.
#[derive(Debug)]
pub enum Stored {
    /// There is no file.
    Missing,
    /// There is a file, and it could not be read.
    Unreadable,
    /// The file holds this text.
    Text(String),
}

/// How far the writing of a configuration file got.
#[derive(Debug, Clone, Copy, PartialEq, Eq, Structural)]
pub enum Written {
    /// The file could not be created.
    NotCreated,
    /// The file was created, and the text could not be written into it.
    NotWritten,
    /// The file holds the text.
    Done,
}

/// The text of the file at the expected place, or the reason why there is
/// none.
pub open spec fn found_text(source: Stored) -> Result<Seq<char>, StackError> {
    match source {
        Stored::Missing => Err(StackError::NotFound),
        Stored::Unreadable => Err(StackError::IOError),
        Stored::Text(text) => Ok(text@),
    }
}

/// The text of a given file, or the reason why there is none: a file that is
/// not there is a file that cannot be read.
pub open spec fn found_text_in(source: Stored) -> Result<Seq<char>, StackError> {
    match source {
        Stored::Text(text) => Ok(text@),
        _ => Err(StackError::IOError),
    }
}

/// What loading gives, given what was found and the record that the text of
/// a file holds: a text that holds no record is malformed.
pub open spec fn loaded<V>(found: Result<Seq<char>, StackError>, read: Option<V>) -> Result<
    V,
    StackError,
> {
    match found {
        Err(e) => Err(e),
        Ok(_) => match read {
            Some(record) => Ok(record),
            None => Err(StackError::Malformed),
        },
    }
}

/// What saving gives: the record itself once the file holds it, or the reason
/// why it does not.
pub open spec fn saved<T>(record: T, written: Written) -> Result<T, StackError> {
    match written {
        Written::NotCreated => Err(StackError::IOError),
        Written::NotWritten => Err(StackError::IOError),
        Written::Done => Ok(record),
    }
}

/// Tells what saving comes to.
pub fn save_written<T>(record: T, written: Written) -> (r: Result<T, StackError>)
    ensures
        r == saved(record, written),
{
    match written {
        Written::NotCreated => Err(StackError::IOError),
        Written::NotWritten => Err(StackError::IOError),
        Written::Done => Ok(record),
    }
}

} // verus!
