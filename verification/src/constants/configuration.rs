//! Folder and file names of a project.
use vstd::prelude::*;

verus! {

/// Environment variable that holds the project home folder.
pub const PROJECT_HOME_FOLDER_ENV: &'static str = "STACK_HOME";

/// Folder of a model's source code inside its repository.
pub const SRC_FOLDER: &'static str = "src";

/// Folder of the per-model configuration files.
pub const PROJECT_HOME_MODEL_CONFIG_FOLDER: &'static str = "config";

/// Folder of the models' source folders.
pub const MODELS_FOLDER: &'static str = "models";

/// Folder of the project's templates.
pub const TEMPLATES_CONFIG_FOLDER: &'static str = "templates";

/// Folder of the infrastructure description.
pub const TERRAFORM_FOLDER: &'static str = "terraform";

/// Folder of the container templates, inside the templates folder.
pub const DOCKER_TEMPLATES_CONFIG_FOLDER: &'static str = "docker";

/// File that holds the project configuration.
pub const PROJECT_CONFIGURATION_FILE: &'static str = "ml.stack.toml";

/// File that holds the model repository configuration.
pub const MODEL_REPO_CONFIGURATION_FILE: &'static str = "model.repo.toml";

/// Extension of a configuration file.
pub const CONFIG_FILENAME_EXT: &'static str = ".toml";

/// File that holds the container build script.
pub const DOCKER_FILE: &'static str = "Dockerfile";

} // verus!
