use ml_stack::error::StackError;
use ml_stack::mlflow::config::model::ModelConfiguration;
use ml_stack::mlflow::config::project::ProjectConfiguration;
use ml_stack::mlflow::config::tag::Tag;
use ml_stack::mlflow::init;
use ml_stack::options::experiment::{
    build_docker_file,
    docker_arguments,
    docker_tag,
    escape,
    experiment_tags,
    parse_model_tag,
    repository_url,
    stringify_tags,
};

#[test]
fn model_tag_splits_at_the_divider() {
    let (model, version) = parse_model_tag("modelA@1.2.0").unwrap();
    assert_eq!(model, "modelA");
    assert_eq!(version, "1.2.0");
}

#[test]
fn model_tag_without_divider_is_refused() {
    assert!(matches!(parse_model_tag("modelA"), Err(StackError::ValidationError)));
    assert!(matches!(parse_model_tag(""), Err(StackError::ValidationError)));
}

#[test]
fn model_tag_splits_at_the_first_divider() {
    let (model, version) = parse_model_tag("a@b@c").unwrap();
    assert_eq!(model, "a");
    assert_eq!(version, "b@c");
    let (model, version) = parse_model_tag("@").unwrap();
    assert_eq!(model, "");
    assert_eq!(version, "");
    let (model, version) = parse_model_tag("modèle@é").unwrap();
    assert_eq!(model, "modèle");
    assert_eq!(version, "é");
}

#[test]
fn image_name_joins_label_and_tag() {
    assert_eq!(docker_tag("proj", "model@1.0.0"), "proj-model-1.0.0");
    assert_eq!(docker_tag("proj", "a@b@c"), "proj-a-b-c");
    assert_eq!(docker_tag("", ""), "-");
}

#[test]
fn escape_guards_quotes_and_backslashes() {
    assert_eq!(escape(r#"[{"key":"a\b"}]"#), r#"[{\"key\":\"a\\b\"}]"#);
    assert_eq!(escape("plain"), "plain");
    assert_eq!(escape(""), "");
    assert_eq!(escape("\\\""), "\\\\\\\"");
}

#[test]
fn repository_is_the_models_own_or_the_projects() {
    let mut project = ProjectConfiguration::new("p");
    project.git.default_repository_url = "https://example.org/default.git".to_string();
    let mut model = ModelConfiguration::new("m");
    assert_eq!(repository_url(&model, &project), "https://example.org/default.git");
    model.override_repository_url = Some("https://example.org/own.git".to_string());
    assert_eq!(repository_url(&model, &project), "https://example.org/own.git");
}

#[test]
fn experiment_tags_are_the_union() {
    let mut project = ProjectConfiguration::new("p");
    project.tag = Tag::new("project", "p");
    let mut model = ModelConfiguration::new("m");
    model.tags = vec![Tag::new("project", "p"), Tag::new("stage", "dev")];
    assert_eq!(
        experiment_tags(&model, &project),
        vec![Tag::new("project", "p"), Tag::new("stage", "dev")]
    );
}

#[test]
fn tags_go_into_the_build_as_escaped_json() {
    let mut project = ProjectConfiguration::new("p");
    project.tag = Tag::new("project", "p");
    let mut model = ModelConfiguration::new("m");
    model.tags = vec![Tag::new("stage", "dev"), Tag::new("project", "p"), Tag::new("a\\b", "\"")];
    assert_eq!(
        stringify_tags(&model, &project).unwrap(),
        r#"[{\"key\":\"project\",\"value\":\"p\"},{\"key\":\"stage\",\"value\":\"dev\"},{\"key\":\"a\\\\b\",\"value\":\"\\\"\"}]"#
    );
    model.tags = vec![];
    assert_eq!(
        stringify_tags(&model, &project).unwrap(),
        r#"[{\"key\":\"project\",\"value\":\"p\"}]"#
    );
}

fn build(no_cache: bool) -> Vec<String> {
    let mut project = ProjectConfiguration::new("My Project");
    project.git.default_repository_url = "https://example.org/models.git".to_string();
    let model = ModelConfiguration::new("m");
    let settings = init("registry.local", "5000").unwrap();
    docker_arguments("/tmp/ctx", "m@1.0.0", &model, &project, &settings, "[]", no_cache)
}

#[test]
fn build_carries_the_tags_of_the_experiment() {
    let mut project = ProjectConfiguration::new("My Project");
    project.tag = Tag::new("project", "my-project");
    let mut model = ModelConfiguration::new("m");
    model.override_repository_url = Some("git@example.org:m.git".to_string());
    model.tags = vec![Tag::new("stage", "dev")];
    let settings = init("registry.local", "5000").unwrap();
    let args =
        build_docker_file("/tmp/ctx", "m@2.0.0", &model, &project, &settings, true).unwrap();
    assert_eq!(args.len(), 21);
    assert_eq!(args[1], "--no-cache");
    assert_eq!(args[3], "MODEL_REPO=git@example.org:m.git");
    assert_eq!(
        args[7],
        r#"MODEL_TAGS=[{\"key\":\"project\",\"value\":\"my-project\"},{\"key\":\"stage\",\"value\":\"dev\"}]"#
    );
    assert_eq!(args[13], "GITHUB_LIB_REPO=git@example.org:m.git");
    assert_eq!(args[19], "my-project-m-2.0.0");
    assert_eq!(args[20], "/tmp/ctx");
}

#[test]
fn build_arguments_in_fixed_order() {
    assert_eq!(
        build(false),
        vec![
            "build",
            "--build-arg",
            "MODEL_REPO=https://example.org/models.git",
            "--build-arg",
            "MODEL_NAME=m@1.0.0",
            "--build-arg",
            "MODEL_TAGS=[]",
            "--build-arg",
            "GITHUB_LIB_BRANCH=ml-stack-py",
            "--build-arg",
            "SERVER_URL=host.docker.internal",
            "--build-arg",
            "GITHUB_LIB_REPO=https://example.org/models.git",
            "--build-arg",
            "MLFLOW_HOST=registry.local",
            "--build-arg",
            "MLFLOW_PORT=5000",
            "-t",
            "my-project-m-1.0.0",
            "/tmp/ctx",
        ]
    );
}

#[test]
fn build_arguments_without_cache() {
    let args = build(true);
    assert_eq!(args[0], "build");
    assert_eq!(args[1], "--no-cache");
    assert_eq!(args[2..], build(false)[1..]);
}
