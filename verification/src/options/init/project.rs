//! Setting up the folder of a new project.
use crate::constants::configuration::{
    DOCKER_TEMPLATES_CONFIG_FOLDER,
    MODELS_FOLDER,
    PROJECT_CONFIGURATION_FILE,
    PROJECT_HOME_MODEL_CONFIG_FOLDER,
    TEMPLATES_CONFIG_FOLDER,
    TERRAFORM_FOLDER,
};
use crate::mlflow::config::project::{default_project, ProjectConfiguration};
use crate::text::text_views;
use crate::util::file::{
    file_views,
    files_from,
    path_of_two,
    path_views,
    plan_files,
    template_views,
    PlannedFile,
    Template,
};
use crate::util::formatting::{folder_name, format_folder};
use vstd::prelude::*;
use vstd::string::*;

verus! {

/// The folders of a project whose home folder is `home`, in the order in
/// which they are made.
pub open spec fn project_directories(home: Seq<char>) -> Seq<Seq<Seq<char>>> {
    seq![
        seq![home, MODELS_FOLDER@],
        seq![home, PROJECT_HOME_MODEL_CONFIG_FOLDER@],
        seq![home, TEMPLATES_CONFIG_FOLDER@],
        seq![home, TERRAFORM_FOLDER@],
        seq![home, TEMPLATES_CONFIG_FOLDER@, DOCKER_TEMPLATES_CONFIG_FOLDER@],
    ]
}

/// Lists the folders to make for a project, each as a path from where the
/// tool runs.
pub fn create_directories(home: &str) -> (r: Vec<Vec<String>>)
    ensures
        path_views(r@) == project_directories(home@),
{
    let mut out: Vec<Vec<String>> = Vec::new();
    out.push(path_of_two(home, MODELS_FOLDER));
    out.push(path_of_two(home, PROJECT_HOME_MODEL_CONFIG_FOLDER));
    out.push(path_of_two(home, TEMPLATES_CONFIG_FOLDER));
    out.push(path_of_two(home, TERRAFORM_FOLDER));
    let mut docker = path_of_two(home, TEMPLATES_CONFIG_FOLDER);
    let ghost before = docker@;
    let last = DOCKER_TEMPLATES_CONFIG_FOLDER.to_owned();
    docker.push(last);
    assert(text_views(before.push(last)) =~= text_views(before).push(last@));
    assert(text_views(docker@) =~= seq![
        home@,
        TEMPLATES_CONFIG_FOLDER@,
        DOCKER_TEMPLATES_CONFIG_FOLDER@,
    ]);
    out.push(docker);
    proof {
        let wanted = project_directories(home@);
        assert(path_views(out@).len() == wanted.len());
        assert(path_views(out@)[0] == wanted[0]);
        assert(path_views(out@)[1] == wanted[1]);
        assert(path_views(out@)[2] == wanted[2]);
        assert(path_views(out@)[3] == wanted[3]);
        assert(path_views(out@)[4] == wanted[4]);
        assert(path_views(out@) =~= wanted);
    }
    out
}

/// Plans the default files of a project in its home folder: each template
/// with the project's label filled in.
pub fn write_default_files(config: &ProjectConfiguration, home: &str, templates: &Vec<Template>) -> (r:
    Vec<PlannedFile>)
    ensures
        file_views(r@) == files_from(seq![home@], config@.label, template_views(templates@)),
{
    let mut folder: Vec<String> = Vec::new();
    folder.push(home.to_owned());
    assert(text_views(folder@) =~= seq![home@]);
    plan_files(&folder, config.label.as_str(), templates)
}

/// All that setting up a project asks for, in the order in which it is done:
/// the folders, the default files, and the configuration to save last.
#[derive(Debug)]
pub struct ProjectPlan {
    /// The project's home folder.
    pub home: String,
    /// The folders to make.
    pub directories: Vec<Vec<String>>,
    /// The files to write.
    pub files: Vec<PlannedFile>,
    /// The configuration to save.
    pub config: ProjectConfiguration,
    /// The file that the configuration goes into.
    pub config_file: Vec<String>,
}

/// Plans a new project named `project`. Its home folder is the folder name
/// of the project; `templates` are the project's default files.
pub fn main(project: &str, templates: &Vec<Template>) -> (plan: ProjectPlan)
    ensures
        plan.home@ == folder_name(project@),
        path_views(plan.directories@) == project_directories(plan.home@),
        file_views(plan.files@) == files_from(
            seq![plan.home@],
            folder_name(project@),
            template_views(templates@),
        ),
        plan.config@ == default_project(project@, plan.config@.dockerfile),
        plan.config@.dockerfile.default_training is Some,
        plan.config@.dockerfile.default_evaluation is Some,
        plan.config@.dockerfile.default_predict is Some,
        text_views(plan.config_file@) == seq![plan.home@, PROJECT_CONFIGURATION_FILE@],
{
    let config = ProjectConfiguration::new(project);
    let home = format_folder(project);
    let directories = create_directories(home.as_str());
    let files = write_default_files(&config, home.as_str(), templates);
    let config_file = path_of_two(home.as_str(), PROJECT_CONFIGURATION_FILE);
    ProjectPlan { home, directories, files, config, config_file }
}

} // verus!
