use ml_stack::mlflow::config::model::ModelConfiguration;
use ml_stack::mlflow::config::project::ProjectConfiguration;
use ml_stack::mlflow::config::tag::Tag;
use ml_stack::mlflow::model_registry::ModelRegistryRecord;
use ml_stack::options::sync::{run, SyncPlan};

fn project(prefix: &str) -> ProjectConfiguration {
    let mut config = ProjectConfiguration::new("Demo Project");
    config.prefix = prefix.to_string();
    config
}

fn model(label: &str) -> ModelConfiguration {
    ModelConfiguration::new(label)
}

fn record(name: &str) -> ModelRegistryRecord {
    ModelRegistryRecord { name: name.to_string(), creation_timestamp: 1, last_updated_timestamp: 2 }
}

fn created(plan: &SyncPlan) -> Vec<String> {
    plan.create.iter().map(|r| r.name.clone()).collect()
}

#[test]
fn missing_model_is_created_and_nothing_is_orphaned() {
    let plan = run(&project("demo"), &vec![model("a"), model("b")], &vec![record("demo-a")]);
    assert_eq!(created(&plan), vec!["demo-b".to_string()]);
    assert!(plan.orphans.is_empty());
}

#[test]
fn unclaimed_entry_is_reported_and_nothing_is_created() {
    let plan = run(&project("demo"), &vec![model("a")], &vec![record("demo-a"), record("demo-z")]);
    assert!(plan.create.is_empty());
    assert_eq!(plan.orphans, vec!["demo-z".to_string()]);
}

#[test]
fn entries_of_other_projects_are_ignored() {
    let remote = vec![record("other-a"), record("demo"), record("demox-a"), record("demo-a")];
    let plan = run(&project("demo"), &vec![model("a")], &remote);
    assert!(plan.create.is_empty());
    assert!(plan.orphans.is_empty());
}

#[test]
fn empty_registry_creates_every_model_in_order() {
    let plan = run(&project("demo"), &vec![model("b"), model("a"), model("c")], &vec![]);
    assert_eq!(created(&plan), vec!["demo-b", "demo-a", "demo-c"]);
    assert!(plan.orphans.is_empty());
}

#[test]
fn no_models_orphans_every_owned_entry_in_order() {
    let remote = vec![record("demo-z"), record("else-q"), record("demo-a")];
    let plan = run(&project("demo"), &vec![], &remote);
    assert!(plan.create.is_empty());
    assert_eq!(plan.orphans, vec!["demo-z", "demo-a"]);
}

#[test]
fn name_must_match_exactly() {
    let plan = run(&project("demo"), &vec![model("a")], &vec![record("demo-A"), record("demo-a ")]);
    assert_eq!(created(&plan), vec!["demo-a"]);
    assert_eq!(plan.orphans, vec!["demo-A", "demo-a "]);
}

#[test]
fn request_carries_description_and_tag_union() {
    let mut config = project("demo");
    config.tag = Tag::new("project", "demo-project");
    let mut local = model("a");
    local.description = "first model".to_string();
    local.tags = vec![
        Tag::new("team", "blue"),
        Tag::new("project", "demo-project"),
        Tag::new("team", "red"),
        Tag::new("team", "blue"),
    ];
    let plan = run(&config, &vec![local], &vec![]);
    assert_eq!(plan.create.len(), 1);
    let request = &plan.create[0];
    assert_eq!(request.name, "demo-a");
    assert_eq!(request.description, Some("first model".to_string()));
    assert_eq!(
        request.tags,
        Some(vec![
            Tag::new("project", "demo-project"),
            Tag::new("team", "blue"),
            Tag::new("team", "red"),
        ])
    );
}

#[test]
fn second_run_creates_nothing() {
    let config = project("demo");
    let models = vec![model("a"), model("b"), model("c")];
    let mut remote = vec![record("demo-b"), record("other-x")];
    let first = run(&config, &models, &remote);
    assert_eq!(created(&first), vec!["demo-a", "demo-c"]);
    for request in &first.create {
        remote.push(record(&request.name));
    }
    let second = run(&config, &models, &remote);
    assert!(second.create.is_empty());
    assert_eq!(second.orphans, first.orphans);
}

#[test]
fn plan_does_not_depend_on_order() {
    let config = project("demo");
    let forward = run(
        &config,
        &vec![model("a"), model("b"), model("c")],
        &vec![record("demo-b"), record("demo-y"), record("demo-z")],
    );
    let backward = run(
        &config,
        &vec![model("c"), model("b"), model("a")],
        &vec![record("demo-z"), record("demo-y"), record("demo-b")],
    );
    let mut one = created(&forward);
    let mut other = created(&backward);
    one.sort();
    other.sort();
    assert_eq!(one, vec!["demo-a", "demo-c"]);
    assert_eq!(one, other);
    let mut left = forward.orphans.clone();
    let mut right = backward.orphans.clone();
    left.sort();
    right.sort();
    assert_eq!(left, vec!["demo-y", "demo-z"]);
    assert_eq!(left, right);
}

#[test]
fn repeated_label_claims_one_entry_each_time() {
    let plan = run(&project("demo"), &vec![model("a"), model("a")], &vec![record("demo-a")]);
    assert_eq!(created(&plan), vec!["demo-a"]);
    assert!(plan.orphans.is_empty());
}

#[test]
fn repeated_entry_is_claimed_once() {
    let plan = run(&project("demo"), &vec![model("a")], &vec![record("demo-a"), record("demo-a")]);
    assert!(plan.create.is_empty());
    assert_eq!(plan.orphans, vec!["demo-a"]);
}

#[test]
fn empty_prefix_owns_names_that_start_with_a_hyphen() {
    let plan = run(&project(""), &vec![model("a")], &vec![record("-a"), record("a"), record("-b")]);
    assert!(plan.create.is_empty());
    assert_eq!(plan.orphans, vec!["-b"]);
}
