//! Markers that the templates hold in place of project values.
use vstd::prelude::*;

verus! {

/// Stands for the project's or the model's label.
pub const PROJECT_NAME: &'static str = "<<PROJECT-NAME>>";

} // verus!
