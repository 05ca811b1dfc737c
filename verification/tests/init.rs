use ml_stack::error::StackError;
use ml_stack::git::Outcome;
use ml_stack::mlflow::config::model::ModelConfiguration;
use ml_stack::mlflow::config::project::ProjectConfiguration;
use ml_stack::options::init::model_in_repository::{
    branch_name,
    commit_message,
    flush_content,
    keeps,
    next_step,
    write_sample,
    FolderEntry,
    Step,
};
use ml_stack::options::init::{model, project};
use ml_stack::util::file::{clone_path, fill, path_of_two, plan_files, Template};

fn template(file_name: &str, content: &str) -> Template {
    Template { file_name: file_name.to_string(), content: content.to_string() }
}

#[test]
fn fill_replaces_every_placeholder() {
    assert_eq!(fill("export NAME=<<PROJECT-NAME>>", "demo"), "export NAME=demo");
    assert_eq!(fill("<<PROJECT-NAME>><<PROJECT-NAME>>", "ab"), "abab");
    assert_eq!(fill("<<<PROJECT-NAME>>>", "x"), "<x>");
    assert_eq!(fill("<<PROJECT-NAME>", "x"), "<<PROJECT-NAME>");
    assert_eq!(fill("", "x"), "");
    assert_eq!(fill("a<<PROJECT-NAME>>b", "<<PROJECT-NAME>>"), "a<<PROJECT-NAME>>b");
    assert_eq!(fill("é<<PROJECT-NAME>>ü", ""), "éü");
}

#[test]
fn fill_agrees_with_the_standard_replace() {
    for content in ["<<<<PROJECT-NAME>>>>", "<<PROJECT-NAME>><", "x<<PROJECT-NAME", "<<project-name>>"] {
        assert_eq!(fill(content, "n"), content.replace("<<PROJECT-NAME>>", "n"));
    }
}

#[test]
fn paths_are_lists_of_names() {
    assert_eq!(path_of_two("a", "b"), vec!["a", "b"]);
    assert_eq!(clone_path(&vec!["x".to_string(), "y".to_string()]), vec!["x", "y"]);
    assert!(clone_path(&vec![]).is_empty());
}

#[test]
fn planned_files_go_into_the_folder() {
    let files = plan_files(
        &vec!["home".to_string(), "sub".to_string()],
        "demo",
        &vec![template("a.txt", "A <<PROJECT-NAME>>"), template("b.txt", "B")],
    );
    assert_eq!(files.len(), 2);
    assert_eq!(files[0].path, vec!["home", "sub", "a.txt"]);
    assert_eq!(files[0].content, "A demo");
    assert_eq!(files[1].path, vec!["home", "sub", "b.txt"]);
    assert_eq!(files[1].content, "B");
}

#[test]
fn project_folders_in_order() {
    assert_eq!(
        project::create_directories("my-project"),
        vec![
            vec!["my-project", "models"],
            vec!["my-project", "config"],
            vec!["my-project", "templates"],
            vec!["my-project", "terraform"],
            vec!["my-project", "templates", "docker"],
        ]
    );
}

#[test]
fn project_default_files_carry_the_label() {
    let config = ProjectConfiguration::new("My Project");
    let files = project::write_default_files(
        &config,
        "my-project",
        &vec![template("env.sh", "export STACK=<<PROJECT-NAME>>\n")],
    );
    assert_eq!(files.len(), 1);
    assert_eq!(files[0].path, vec!["my-project", "env.sh"]);
    assert_eq!(files[0].content, "export STACK=my-project\n");
}

#[test]
fn project_plan_holds_every_step() {
    let plan = project::main("My Project", &vec![template("env.sh", "<<PROJECT-NAME>>")]);
    assert_eq!(plan.home, "my-project");
    assert_eq!(plan.directories.len(), 5);
    assert_eq!(plan.directories[0], vec!["my-project", "models"]);
    assert_eq!(plan.directories[4], vec!["my-project", "templates", "docker"]);
    assert_eq!(plan.files.len(), 1);
    assert_eq!(plan.files[0].path, vec!["my-project", "env.sh"]);
    assert_eq!(plan.files[0].content, "my-project");
    assert_eq!(plan.config.label, "my-project");
    assert_eq!(plan.config.prefix, "demo");
    assert_eq!(plan.config_file, vec!["my-project", "ml.stack.toml"]);
}

#[test]
fn model_default_files_carry_the_label() {
    let config = ModelConfiguration::new("My Model");
    let files = model::write_default_files(
        &config,
        &vec!["models".to_string(), "my_model".to_string()],
        &vec![template("main_train.py", "# <<PROJECT-NAME>>"), template("main_test.py", "")],
    );
    assert_eq!(files.len(), 2);
    assert_eq!(files[0].path, vec!["models", "my_model", "main_train.py"]);
    assert_eq!(files[0].content, "# My Model");
    assert_eq!(files[1].path, vec!["models", "my_model", "main_test.py"]);
    assert_eq!(files[1].content, "");
}

#[test]
fn model_plan_holds_every_step() {
    let plan = model::main("My Model", &vec![template("main_invoke.py", "<<PROJECT-NAME>>")]);
    assert_eq!(plan.config.label, "My Model");
    assert_eq!(plan.folder, vec!["models", "my_model"]);
    assert_eq!(plan.files.len(), 1);
    assert_eq!(plan.files[0].path, vec!["models", "my_model", "main_invoke.py"]);
    assert_eq!(plan.files[0].content, "My Model");
    assert_eq!(plan.config_file, vec!["config", "my.model.toml"]);
}

#[test]
fn first_branch_and_its_commit() {
    assert_eq!(branch_name("My Model"), "my-model@0.0.0");
    assert_eq!(commit_message("my-model@0.0.0"), "Initial commit of my-model@0.0.0");
}

fn entry(name: &str, is_file: bool) -> FolderEntry {
    FolderEntry { name: name.to_string(), is_file }
}

#[test]
fn flush_spares_what_every_branch_keeps() {
    let entries = vec![
        entry(".git", false),
        entry("src", false),
        entry(".gitignore", true),
        entry("README.md", true),
        entry("main.py", true),
        entry("README.md", false),
        entry(".git", true),
        entry(".gitignore", false),
        entry("readme.md", true),
    ];
    assert_eq!(
        flush_content(&entries),
        vec!["src", "main.py", "README.md", ".git", ".gitignore", "readme.md"]
    );
    assert!(flush_content(&vec![]).is_empty());
}

#[test]
fn kept_entries_depend_on_their_kind() {
    assert!(keeps(".gitignore", true));
    assert!(keeps("README.md", true));
    assert!(keeps(".git", false));
    assert!(!keeps(".git", true));
    assert!(!keeps("README.md", false));
    assert!(!keeps("", true));
    assert!(!keeps("", false));
}

#[test]
fn sample_is_a_source_folder_with_two_files() {
    let plan = write_sample("numpy\n", "print('hi')\n");
    assert_eq!(plan.directories, vec![vec!["src"]]);
    assert_eq!(plan.files.len(), 2);
    assert_eq!(plan.files[0].path, vec!["requirements.txt"]);
    assert_eq!(plan.files[0].content, "numpy\n");
    assert_eq!(plan.files[1].path, vec!["src", "__main__.py"]);
    assert_eq!(plan.files[1].content, "print('hi')\n");
}

#[test]
fn steps_follow_each_other_on_success() {
    let ok = Outcome::Exited { success: true };
    assert_eq!(next_step(Step::Checkout, ok).unwrap(), Step::CheckDiff);
    assert_eq!(next_step(Step::CheckDiff, ok).unwrap(), Step::Flush);
    assert_eq!(next_step(Step::Flush, ok).unwrap(), Step::WriteSample);
    assert_eq!(next_step(Step::WriteSample, ok).unwrap(), Step::Commit);
    assert_eq!(next_step(Step::Commit, ok).unwrap(), Step::Publish);
    assert_eq!(next_step(Step::Publish, ok).unwrap(), Step::Finished);
    assert_eq!(next_step(Step::Finished, ok).unwrap(), Step::Finished);
}

#[test]
fn uncommitted_changes_stop_before_anything_is_removed() {
    let changes = Outcome::Exited { success: false };
    assert!(matches!(next_step(Step::CheckDiff, changes), Err(StackError::ValidationError)));
    assert!(matches!(next_step(Step::CheckDiff, Outcome::NotLaunched), Err(StackError::LaunchError)));
}

#[test]
fn failed_steps_end_the_workflow() {
    let failed = Outcome::Exited { success: false };
    assert!(matches!(next_step(Step::Checkout, failed), Err(StackError::ExecutionError)));
    assert!(matches!(next_step(Step::Checkout, Outcome::NotLaunched), Err(StackError::LaunchError)));
    assert!(matches!(next_step(Step::Flush, failed), Err(StackError::IOError)));
    assert!(matches!(next_step(Step::Flush, Outcome::NotLaunched), Err(StackError::IOError)));
    assert!(matches!(next_step(Step::WriteSample, failed), Err(StackError::IOError)));
    assert!(matches!(next_step(Step::Commit, failed), Err(StackError::ExecutionError)));
    assert!(matches!(next_step(Step::Commit, Outcome::NotLaunched), Err(StackError::LaunchError)));
    assert!(matches!(next_step(Step::Publish, failed), Err(StackError::ExecutionError)));
    assert!(matches!(next_step(Step::Publish, Outcome::NotLaunched), Err(StackError::LaunchError)));
}
