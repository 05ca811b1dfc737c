//! Setting up a project, a model, and a model's branch in its repository.
pub mod model;
pub mod model_in_repository;
pub mod project;
