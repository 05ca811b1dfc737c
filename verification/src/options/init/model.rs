//! Setting up a new model inside a project.
use crate::constants::configuration::{MODELS_FOLDER, PROJECT_HOME_MODEL_CONFIG_FOLDER};
use crate::mlflow::config::model::{default_model, model_file_name, ModelConfiguration};
use crate::text::text_views;
use crate::util::file::{
    file_views,
    files_from,
    path_of_two,
    plan_files,
    template_views,
    PlannedFile,
    Template,
};
use crate::util::formatting::py_folder_name;
use vstd::prelude::*;
use vstd::string::*;

verus! {

/// Plans the default files of a model in its source folder `home`: each
/// template with the model's label filled in.
pub fn write_default_files(
    config: &ModelConfiguration,
    home: &Vec<String>,
    templates: &Vec<Template>,
) -> (r: Vec<PlannedFile>)
    ensures
        file_views(r@) == files_from(text_views(home@), config@.label, template_views(templates@)),
{
    plan_files(home, config.label.as_str(), templates)
}

/// All that setting up a model asks for, in the order in which it is done:
/// the source folder, the default files in it, and the configuration to save
/// last. The paths start at the project's home folder.
#[derive(Debug)]
pub struct ModelPlan {
    /// The model's source folder.
    pub folder: Vec<String>,
    /// The files to write.
    pub files: Vec<PlannedFile>,
    /// The configuration to save.
    pub config: ModelConfiguration,
    /// The file that the configuration goes into.
    pub config_file: Vec<String>,
}

/// Plans a new model named `model`; `templates` are the model's default
/// files.
pub fn main(model: &str, templates: &Vec<Template>) -> (plan: ModelPlan)
    ensures
        plan.config@ == default_model(model@),
        text_views(plan.folder@) == seq![MODELS_FOLDER@, py_folder_name(model@)],
        file_views(plan.files@) == files_from(
            text_views(plan.folder@),
            model@,
            template_views(templates@),
        ),
        text_views(plan.config_file@) == seq![
            PROJECT_HOME_MODEL_CONFIG_FOLDER@,
            model_file_name(model@),
        ],
{
    let config = ModelConfiguration::new(model);
    let folder = path_of_two(MODELS_FOLDER, config.to_folder_name().as_str());
    let files = write_default_files(&config, &folder, templates);
    let config_file = path_of_two(
        PROJECT_HOME_MODEL_CONFIG_FOLDER,
        ModelConfiguration::to_file_name(model).as_str(),
    );
    ModelPlan { folder, files, config, config_file }
}

} // verus!
