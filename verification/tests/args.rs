use ml_stack::args::{StackAction, StackArgs};
use ml_stack::error::StackError;

fn none() -> StackArgs {
    StackArgs {
        deploy: None,
        init: None,
        model: None,
        repo: None,
        run: None,
        sync: false,
        no_cache: false,
    }
}

fn text(s: &str) -> Option<String> {
    Some(s.to_string())
}

#[test]
fn sync_flag_selects_sync() {
    let args = StackArgs { sync: true, ..none() };
    assert!(matches!(args.action(), Ok(StackAction::Sync)));
    assert!(args.validate().is_ok());
}

#[test]
fn deploy_selects_deploy_with_or_without_model() {
    let bare = StackArgs { deploy: Some(None), ..none() };
    assert!(matches!(bare.action(), Ok(StackAction::Deploy(None))));
    let named = StackArgs { deploy: Some(text("m")), ..none() };
    assert!(matches!(named.action(), Ok(StackAction::Deploy(Some(m))) if m == "m"));
}

#[test]
fn run_selects_experiment_with_cache_flag() {
    let args = StackArgs { run: text("m@1.0.0"), no_cache: true, ..none() };
    assert!(matches!(args.action(), Ok(StackAction::RunExperiment(t, true)) if t == "m@1.0.0"));
    let cached = StackArgs { run: text("m@1.0.0"), ..none() };
    assert!(matches!(cached.action(), Ok(StackAction::RunExperiment(t, false)) if t == "m@1.0.0"));
}

#[test]
fn init_with_name_selects_project() {
    let args = StackArgs { init: Some(text("proj")), ..none() };
    assert!(matches!(args.action(), Ok(StackAction::InitializeProject(p)) if p == "proj"));
}

#[test]
fn init_with_model_selects_model() {
    let args = StackArgs { init: Some(None), model: text("m"), ..none() };
    assert!(matches!(args.action(), Ok(StackAction::InitializeModel(m)) if m == "m"));
}

#[test]
fn init_with_named_repo_selects_repository() {
    let args = StackArgs { init: Some(None), repo: Some(text("r")), ..none() };
    assert!(matches!(args.action(), Ok(StackAction::InitializeModelRepository(r)) if r == "r"));
}

#[test]
fn init_with_bare_repo_and_model_selects_model_in_repository() {
    let args = StackArgs { init: Some(None), repo: Some(None), model: text("m"), ..none() };
    assert!(matches!(args.action(), Ok(StackAction::InitializeModelInRepository(m)) if m == "m"));
}

#[test]
fn no_action_is_refused() {
    assert!(matches!(none().action(), Err(StackError::ValidationError)));
    assert!(matches!(none().validate(), Err(StackError::ValidationError)));
    let stray = StackArgs { model: text("m"), repo: Some(None), no_cache: true, ..none() };
    assert!(matches!(stray.action(), Err(StackError::ValidationError)));
}

#[test]
fn two_actions_are_refused() {
    let args = StackArgs { sync: true, run: text("m@1"), ..none() };
    assert!(matches!(args.action(), Err(StackError::ValidationError)));
    assert!(matches!(args.validate(), Err(StackError::ValidationError)));
    let other = StackArgs { init: Some(text("p")), deploy: Some(None), ..none() };
    assert!(matches!(other.action(), Err(StackError::ValidationError)));
}

#[test]
fn init_project_with_model_or_repo_is_refused() {
    let with_model = StackArgs { init: Some(text("p")), model: text("m"), ..none() };
    assert!(matches!(with_model.action(), Err(StackError::ValidationError)));
    let with_repo = StackArgs { init: Some(text("p")), repo: Some(None), ..none() };
    assert!(matches!(with_repo.action(), Err(StackError::ValidationError)));
}

#[test]
fn init_with_named_repo_and_model_is_refused() {
    let args = StackArgs { init: Some(None), repo: Some(text("r")), model: text("m"), ..none() };
    assert!(matches!(args.action(), Err(StackError::ValidationError)));
}

#[test]
fn bare_init_is_refused() {
    let alone = StackArgs { init: Some(None), ..none() };
    assert!(matches!(alone.action(), Err(StackError::ValidationError)));
    let bare_repo = StackArgs { init: Some(None), repo: Some(None), ..none() };
    assert!(matches!(bare_repo.action(), Err(StackError::ValidationError)));
}

#[test]
fn model_and_repo_say_nothing_without_init() {
    let args = StackArgs { sync: true, model: text("m"), repo: Some(text("r")), ..none() };
    assert!(matches!(args.action(), Ok(StackAction::Sync)));
}
