use ml_stack::error::StackError;
use ml_stack::mlflow::config::model::{LiveModelPointer, ModelConfiguration, StagingModelPointer};
use ml_stack::mlflow::config::model_repository::ModelRepositoryConfiguration;
use ml_stack::mlflow::config::project::{ConfigEntry, DockerFile, ProjectConfiguration};
use ml_stack::mlflow::config::tag::Tag;
use ml_stack::mlflow::config::{save_written, Stored, Written};
use std::path::Path;

#[test]
fn new_model_has_the_default_values() {
    let model = ModelConfiguration::new("My Model");
    assert_eq!(model.label, "My Model");
    assert_eq!(model.description, "Placeholder description");
    assert!(model.tags.is_empty());
    assert_eq!(model.override_repository_url, None);
    let production = model.production.unwrap();
    assert_eq!(production.branch, "<github branch>");
    assert_eq!(production.version, "version-tag");
    let staging = model.staging.unwrap();
    assert_eq!(staging.branch, "<github branch>");
    assert_eq!(staging.version, Some("version-tag".to_string()));
}

#[test]
fn model_file_name_is_dot_case_with_extension() {
    assert_eq!(ModelConfiguration::to_file_name("MyModel"), "my.model.toml");
    assert_eq!(ModelConfiguration::to_file_name("my model_v2"), "my.model.v2.toml");
    assert_eq!(ModelConfiguration::to_file_name(""), ".toml");
}

#[test]
fn model_folder_name_is_python_style() {
    assert_eq!(ModelConfiguration::new("My-Model v2.1").to_folder_name(), "my_model_v2_1");
    assert_eq!(ModelConfiguration::new("plain").to_folder_name(), "plain");
}

#[test]
fn model_clone_keeps_every_field() {
    let mut model = ModelConfiguration::new("m");
    model.tags = vec![Tag::new("a", "b")];
    model.override_repository_url = Some("url".to_string());
    model.staging = Some(StagingModelPointer { branch: "s".to_string(), version: None });
    model.production =
        Some(LiveModelPointer { branch: "p".to_string(), version: "1".to_string() });
    let copy = model.clone();
    assert_eq!(copy.label, "m");
    assert_eq!(copy.description, model.description);
    assert_eq!(copy.tags, model.tags);
    assert_eq!(copy.override_repository_url, Some("url".to_string()));
    let staging = copy.staging.unwrap();
    assert_eq!(staging.branch, "s");
    assert_eq!(staging.version, None);
    let production = copy.production.unwrap();
    assert_eq!(production.branch, "p");
    assert_eq!(production.version, "1");
}

fn template(file: &str) -> String {
    format!("{}", Path::new("templates").join("docker").join(file).display())
}

#[test]
fn new_project_has_the_default_values() {
    let project = ProjectConfiguration::new("My Project_X");
    assert_eq!(project.label, "my-project-x");
    assert_eq!(project.prefix, "demo");
    assert_eq!(project.tag, Tag::new("project", "my-project-x"));
    assert_eq!(project.description, "Placeholder description");
    assert_eq!(project.git.default_repository_url, "<Default Github Model Repository URL>");
    assert_eq!(project.dockerfile.default_evaluation, Some(template("eval.docker")));
    assert_eq!(project.dockerfile.default_predict, Some(template("eval.predict")));
    assert_eq!(project.dockerfile.default_training, Some(template("eval.train")));
}

#[test]
fn project_with_templates_takes_them_as_given() {
    let dockerfile = DockerFile {
        default_training: Some("t".to_string()),
        default_evaluation: None,
        default_predict: Some("p".to_string()),
    };
    let project = ProjectConfiguration::with_templates("A.b", dockerfile);
    assert_eq!(project.label, "a-b");
    assert_eq!(project.tag, Tag::new("project", "a-b"));
    assert_eq!(project.dockerfile.default_training, Some("t".to_string()));
    assert_eq!(project.dockerfile.default_evaluation, None);
    assert_eq!(project.dockerfile.default_predict, Some("p".to_string()));
    let copy = project.clone();
    assert_eq!(copy.label, "a-b");
    assert_eq!(copy.prefix, "demo");
    assert_eq!(copy.tag, project.tag);
    assert_eq!(copy.dockerfile.default_predict, Some("p".to_string()));
    assert_eq!(copy.git.default_repository_url, project.git.default_repository_url);
}

#[test]
fn new_model_repository_keeps_prefix_and_tags() {
    let repository = ModelRepositoryConfiguration::new("demo", vec![Tag::new("Project", "demo")]);
    assert_eq!(repository.prefix, "demo");
    assert_eq!(repository.default_tags, vec![Tag::new("Project", "demo")]);
    let copy = repository.clone();
    assert_eq!(copy.prefix, "demo");
    assert_eq!(copy.default_tags, repository.default_tags);
}

fn full_model() -> ModelConfiguration {
    let mut model = ModelConfiguration::new("My Model");
    model.description = "says \"hi\"\nand more".to_string();
    model.tags = vec![Tag::new("team", "blue"), Tag::new("team", "red"), Tag::new("é", "")];
    model.override_repository_url = Some("https://example.org/own.git".to_string());
    model.staging = Some(StagingModelPointer { branch: "next".to_string(), version: None });
    model
}

fn same_model(left: &ModelConfiguration, right: &ModelConfiguration) -> bool {
    let production = match (&left.production, &right.production) {
        (Some(a), Some(b)) => a.branch == b.branch && a.version == b.version,
        (None, None) => true,
        _ => false,
    };
    let staging = match (&left.staging, &right.staging) {
        (Some(a), Some(b)) => a.branch == b.branch && a.version == b.version,
        (None, None) => true,
        _ => false,
    };
    left.label == right.label
        && left.description == right.description
        && left.tags == right.tags
        && left.override_repository_url == right.override_repository_url
        && production
        && staging
}

fn same_project(left: &ProjectConfiguration, right: &ProjectConfiguration) -> bool {
    left.label == right.label
        && left.prefix == right.prefix
        && left.tag == right.tag
        && left.description == right.description
        && left.git.default_repository_url == right.git.default_repository_url
        && left.dockerfile.default_training == right.dockerfile.default_training
        && left.dockerfile.default_evaluation == right.dockerfile.default_evaluation
        && left.dockerfile.default_predict == right.dockerfile.default_predict
}

#[test]
fn model_text_holds_every_field() {
    let text = ModelConfiguration::new("m").to_toml().unwrap();
    assert_eq!(
        text,
        "description = \"Placeholder description\"\nlabel = \"m\"\ntags = []\n\n[production]\nbranch = \"<github branch>\"\nversion = \"version-tag\"\n\n[staging]\nbranch = \"<github branch>\"\nversion = \"version-tag\"\n"
    );
}

#[test]
fn model_round_trip_through_text() {
    for model in [ModelConfiguration::new("m"), full_model()] {
        let text = model.to_toml().unwrap();
        let read = ModelConfiguration::from_toml(&text).unwrap();
        assert!(same_model(&read, &model));
        assert_eq!(read.to_toml().unwrap(), text);
    }
    let mut bare = ModelConfiguration::new("");
    bare.production = None;
    bare.staging = None;
    let read = ModelConfiguration::from_toml(&bare.to_toml().unwrap()).unwrap();
    assert!(same_model(&read, &bare));
}

#[test]
fn model_round_trip_through_document() {
    let model = full_model();
    let read = ModelConfiguration::from_table(&model.to_table()).unwrap();
    assert!(same_model(&read, &model));
}

#[test]
fn model_is_read_from_hand_written_text() {
    let text = r#"
label = "churn"
description = "Predicts churn"
override_repository_url = "git@example.org:churn.git"
unknown = 7

[[tags]]
key = "team"
value = "growth"

[[tags]]
value = "b"
key = "a"
extra = true

[staging]
branch = "next"
"#;
    let model = ModelConfiguration::from_toml(text).unwrap();
    assert_eq!(model.label, "churn");
    assert_eq!(model.description, "Predicts churn");
    assert_eq!(model.tags, vec![Tag::new("team", "growth"), Tag::new("a", "b")]);
    assert_eq!(model.override_repository_url, Some("git@example.org:churn.git".to_string()));
    assert!(model.production.is_none());
    let staging = model.staging.unwrap();
    assert_eq!(staging.branch, "next");
    assert_eq!(staging.version, None);
}

#[test]
fn model_text_of_unexpected_shape_is_malformed() {
    let broken = [
        "",
        "label = \"m\"",
        "label = \"m\"\ndescription = \"d\"",
        "label = 1\ndescription = \"d\"\ntags = []",
        "label = \"m\"\ndescription = \"d\"\ntags = \"none\"",
        "label = \"m\"\ndescription = \"d\"\ntags = [\"a\"]",
        "label = \"m\"\ndescription = \"d\"\ntags = [{ key = \"a\" }]",
        "label = \"m\"\ndescription = \"d\"\ntags = []\noverride_repository_url = false",
        "label = \"m\"\ndescription = \"d\"\ntags = []\nproduction = \"main\"",
        "label = \"m\"\ndescription = \"d\"\ntags = []\n[production]\nbranch = \"main\"",
        "label = \"m\"\ndescription = \"d\"\ntags = []\n[staging]\nversion = \"1\"",
        "label = \"m\"\ndescription = \"d\"\ntags = []\n[staging]\nbranch = \"b\"\nversion = 1",
        "label = \"m\"\nlabel = \"n\"\ndescription = \"d\"\ntags = []",
        "label = \"m\ndescription = \"d\"\ntags = []",
        "not toml at all",
    ];
    for text in broken {
        assert!(matches!(ModelConfiguration::from_toml(text), Err(StackError::Malformed)));
    }
}

#[test]
fn project_round_trip_through_text() {
    let mut project = ProjectConfiguration::new("My Project");
    project.dockerfile.default_evaluation = None;
    project.description = "línea\ttab".to_string();
    let text = project.to_toml().unwrap();
    let read = ProjectConfiguration::from_toml(&text).unwrap();
    assert!(same_project(&read, &project));
    let read = ProjectConfiguration::from_table(&project.to_table()).unwrap();
    assert!(same_project(&read, &project));
}

#[test]
fn project_text_holds_every_field() {
    let dockerfile = DockerFile {
        default_training: Some("t".to_string()),
        default_evaluation: None,
        default_predict: Some("p".to_string()),
    };
    let text = ProjectConfiguration::with_templates("Demo", dockerfile).to_toml().unwrap();
    assert_eq!(
        text,
        "description = \"Placeholder description\"\nlabel = \"demo\"\nprefix = \"demo\"\n\n[dockerfile]\ndefault_predict = \"p\"\ndefault_training = \"t\"\n\n[git]\ndefault_repository_url = \"<Default Github Model Repository URL>\"\n\n[tag]\nkey = \"project\"\nvalue = \"demo\"\n"
    );
}

#[test]
fn project_text_of_unexpected_shape_is_malformed() {
    let complete = "label = \"p\"\nprefix = \"demo\"\ndescription = \"d\"\n[tag]\nkey = \"k\"\nvalue = \"v\"\n[git]\ndefault_repository_url = \"u\"\n[dockerfile]\n";
    let project = ProjectConfiguration::from_toml(complete).unwrap();
    assert_eq!(project.prefix, "demo");
    assert_eq!(project.dockerfile.default_training, None);
    let broken = [
        "prefix = \"demo\"\ndescription = \"d\"\n[tag]\nkey = \"k\"\nvalue = \"v\"\n[git]\ndefault_repository_url = \"u\"\n[dockerfile]\n",
        "label = \"p\"\nprefix = \"demo\"\ndescription = \"d\"\n[tag]\nkey = \"k\"\n[git]\ndefault_repository_url = \"u\"\n[dockerfile]\n",
        "label = \"p\"\nprefix = \"demo\"\ndescription = \"d\"\n[tag]\nkey = \"k\"\nvalue = \"v\"\n[git]\n[dockerfile]\n",
        "label = \"p\"\nprefix = \"demo\"\ndescription = \"d\"\n[tag]\nkey = \"k\"\nvalue = \"v\"\n[git]\ndefault_repository_url = \"u\"\n",
        "label = \"p\"\nprefix = \"demo\"\ndescription = \"d\"\ndockerfile = \"x\"\n[tag]\nkey = \"k\"\nvalue = \"v\"\n[git]\ndefault_repository_url = \"u\"\n",
        "label = \"p\"\nprefix = \"demo\"\ndescription = \"d\"\n[tag]\nkey = \"k\"\nvalue = \"v\"\n[git]\ndefault_repository_url = \"u\"\n[dockerfile]\ndefault_predict = 3\n",
    ];
    for text in broken {
        assert!(matches!(ProjectConfiguration::from_toml(text), Err(StackError::Malformed)));
    }
}

#[test]
fn model_repository_round_trip_through_text() {
    let repository = ModelRepositoryConfiguration::new(
        "demo",
        vec![Tag::new("Project", "demo"), Tag::new("a", "b")],
    );
    let text = repository.to_toml().unwrap();
    assert_eq!(
        text,
        "prefix = \"demo\"\n\n[[default_tags]]\nkey = \"Project\"\nvalue = \"demo\"\n\n[[default_tags]]\nkey = \"a\"\nvalue = \"b\"\n"
    );
    let read = ModelRepositoryConfiguration::from_toml(&text).unwrap();
    assert_eq!(read.prefix, "demo");
    assert_eq!(read.default_tags, repository.default_tags);
    let read = ModelRepositoryConfiguration::from_table(&repository.to_table()).unwrap();
    assert_eq!(read.default_tags, repository.default_tags);
    assert!(matches!(
        ModelRepositoryConfiguration::from_toml("prefix = \"demo\""),
        Err(StackError::Malformed)
    ));
}

#[test]
fn tag_is_read_from_a_table() {
    let mut table = toml::map::Map::new();
    table.insert("value".to_string(), toml::Value::String("v".to_string()));
    assert!(Tag::from_table(&table).is_none());
    table.insert("key".to_string(), toml::Value::String("k".to_string()));
    assert_eq!(Tag::from_table(&table), Some(Tag::new("k", "v")));
    table.insert("key".to_string(), toml::Value::Integer(1));
    assert!(Tag::from_table(&table).is_none());
    let written = Tag::new("k", "v").to_table();
    assert_eq!(written.get("key"), Some(&toml::Value::String("k".to_string())));
    assert_eq!(written.get("value"), Some(&toml::Value::String("v".to_string())));
    assert_eq!(written.len(), 2);
}

fn text(content: &str) -> Stored {
    Stored::Text(content.to_string())
}

#[test]
fn load_gives_the_record_that_the_file_holds() {
    let model = ModelConfiguration::load(&text(&full_model().to_toml().unwrap())).unwrap();
    assert!(same_model(&model, &full_model()));
    let model = ModelConfiguration::load_from(&text(&full_model().to_toml().unwrap())).unwrap();
    assert!(same_model(&model, &full_model()));
    let project = ProjectConfiguration::new("p");
    let read = ProjectConfiguration::load(&text(&project.to_toml().unwrap())).unwrap();
    assert!(same_project(&read, &project));
    let repository = ModelRepositoryConfiguration::new("demo", vec![]);
    let read = ModelRepositoryConfiguration::load(&text(&repository.to_toml().unwrap())).unwrap();
    assert_eq!(read.prefix, "demo");
    assert!(read.default_tags.is_empty());
}

#[test]
fn load_fails_with_not_found_on_a_missing_file() {
    assert!(matches!(ModelConfiguration::load(&Stored::Missing), Err(StackError::NotFound)));
    assert!(matches!(ProjectConfiguration::load(&Stored::Missing), Err(StackError::NotFound)));
    assert!(matches!(
        ModelRepositoryConfiguration::load(&Stored::Missing),
        Err(StackError::NotFound)
    ));
}

#[test]
fn load_fails_with_malformed_on_an_unexpected_shape() {
    assert!(matches!(ModelConfiguration::load(&text("label = 1")), Err(StackError::Malformed)));
    assert!(matches!(ProjectConfiguration::load(&text("[")), Err(StackError::Malformed)));
    assert!(matches!(ModelConfiguration::load_from(&text("")), Err(StackError::Malformed)));
    assert!(matches!(
        ModelRepositoryConfiguration::load(&text("prefix = []")),
        Err(StackError::Malformed)
    ));
}

#[test]
fn load_fails_with_io_error_on_an_unreadable_file() {
    assert!(matches!(ModelConfiguration::load(&Stored::Unreadable), Err(StackError::IOError)));
    assert!(matches!(ProjectConfiguration::load(&Stored::Unreadable), Err(StackError::IOError)));
    assert!(matches!(ModelConfiguration::load_from(&Stored::Unreadable), Err(StackError::IOError)));
    assert!(matches!(ModelConfiguration::load_from(&Stored::Missing), Err(StackError::IOError)));
    assert!(matches!(
        ModelRepositoryConfiguration::load(&Stored::Unreadable),
        Err(StackError::IOError)
    ));
}

#[test]
fn save_gives_the_record_back_once_written() {
    let model = ModelConfiguration::new("m").save(Written::Done).unwrap();
    assert_eq!(model.label, "m");
    let project = ProjectConfiguration::new("p").save(Written::Done).unwrap();
    assert_eq!(project.label, "p");
    let project = ProjectConfiguration::new("q").save_to(Written::Done).unwrap();
    assert_eq!(project.label, "q");
    let repository =
        ModelRepositoryConfiguration::new("demo", vec![]).save(Written::Done).unwrap();
    assert_eq!(repository.prefix, "demo");
    assert_eq!(save_written(5, Written::Done).unwrap(), 5);
}

#[test]
fn save_fails_with_io_error_when_the_file_is_not_written() {
    assert!(matches!(
        ModelConfiguration::new("m").save(Written::NotCreated),
        Err(StackError::IOError)
    ));
    assert!(matches!(
        ProjectConfiguration::new("p").save(Written::NotWritten),
        Err(StackError::IOError)
    ));
    assert!(matches!(
        ProjectConfiguration::new("p").save_to(Written::NotCreated),
        Err(StackError::IOError)
    ));
    assert!(matches!(
        ModelRepositoryConfiguration::new("demo", vec![]).save(Written::NotWritten),
        Err(StackError::IOError)
    ));
}

#[test]
fn save_then_load_keeps_every_field() {
    let model = full_model();
    let text = model.to_toml().unwrap();
    let saved = model.save(Written::Done).unwrap();
    let loaded = ModelConfiguration::load(&Stored::Text(text)).unwrap();
    assert!(same_model(&loaded, &saved));
    assert!(same_model(&loaded, &full_model()));
}

fn entry(name: &str, is_file: bool, content: Stored) -> ConfigEntry {
    ConfigEntry { name: name.to_string(), is_file, content }
}

fn holding(label: &str) -> Stored {
    Stored::Text(ModelConfiguration::new(label).to_toml().unwrap())
}

#[test]
fn model_files_are_regular_files_with_the_extension() {
    assert!(ProjectConfiguration::is_model_file("a.toml", true));
    assert!(ProjectConfiguration::is_model_file(".toml", true));
    assert!(!ProjectConfiguration::is_model_file("a.toml", false));
    assert!(!ProjectConfiguration::is_model_file("a.toml.bak", true));
    assert!(!ProjectConfiguration::is_model_file("toml", true));
    assert!(!ProjectConfiguration::is_model_file("a.TOML", true));
    assert!(!ProjectConfiguration::is_model_file("", true));
}

#[test]
fn list_models_passes_over_other_entries() {
    let project = ProjectConfiguration::new("p");
    let listing = Some(vec![
        entry("b.toml", true, holding("b")),
        entry("notes.txt", true, Stored::Missing),
        entry("folder.toml", false, Stored::Unreadable),
        entry("readme.md", true, text("not a model")),
        entry("a.toml", true, holding("a")),
    ]);
    let models = project.list_models(&listing).unwrap();
    let labels: Vec<String> = models.iter().map(|m| m.label.clone()).collect();
    assert_eq!(labels, vec!["b", "a"]);
}

#[test]
fn list_models_of_an_empty_folder_is_empty() {
    let project = ProjectConfiguration::new("p");
    assert!(project.list_models(&Some(vec![])).unwrap().is_empty());
}

#[test]
fn list_models_fails_as_a_whole() {
    let project = ProjectConfiguration::new("p");
    for broken in [text("label = 1"), text("]["), Stored::Unreadable, Stored::Missing] {
        let listing =
            Some(vec![entry("a.toml", true, holding("a")), entry("b.toml", true, broken), entry("c.toml", true, holding("c"))]);
        assert!(matches!(project.list_models(&listing), Err(StackError::IOError)));
    }
}

#[test]
fn list_models_fails_when_the_folder_cannot_be_read() {
    let project = ProjectConfiguration::new("p");
    assert!(matches!(project.list_models(&None), Err(StackError::IOError)));
}
