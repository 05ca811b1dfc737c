//! The command line: which action a set of flags selects.
use crate::error::StackError;
use crate::text::optional_text;
use vstd::prelude::*;
use vstd::string::*;

verus! {

/// What an action says.
pub enum StackActionView {
    Sync,
    Deploy(Option<Seq<char>>),
    InitializeModelRepository(Seq<char>),
    InitializeModelInRepository(Seq<char>),
    InitializeModel(Seq<char>),
    InitializeProject(Seq<char>),
    RunExperiment(Seq<char>, bool),
}

/// What the tool is asked to do.
#[derive(Debug)]
pub enum StackAction {
    Sync,
    Deploy(Option<String>),
    InitializeModelRepository(String),
    InitializeModelInRepository(String),
    InitializeModel(String),
    InitializeProject(String),
    RunExperiment(String, bool),
}

impl View for StackAction {
    type V = StackActionView;

    open spec fn view(&self) -> StackActionView {
        match self {
            StackAction::Sync => StackActionView::Sync,
            StackAction::Deploy(model) => StackActionView::Deploy(optional_text(*model)),
            StackAction::InitializeModelRepository(name) => {
                StackActionView::InitializeModelRepository(name@)
            },
            StackAction::InitializeModelInRepository(name) => {
                StackActionView::InitializeModelInRepository(name@)
            },
            StackAction::InitializeModel(name) => StackActionView::InitializeModel(name@),
            StackAction::InitializeProject(name) => StackActionView::InitializeProject(name@),
            StackAction::RunExperiment(tag, no_cache) => StackActionView::RunExperiment(
                tag@,
                *no_cache,
            ),
        }
    }
}

/// What the flags of a command line say. A flag that takes an optional value
/// is `None` when absent, `Some(None)` when given bare.
pub struct StackArgsView {
    pub deploy: Option<Option<Seq<char>>>,
    pub init: Option<Option<Seq<char>>>,
    pub model: Option<Seq<char>>,
    pub repo: Option<Option<Seq<char>>>,
    pub run: Option<Seq<char>>,
    pub sync: bool,
    pub no_cache: bool,
}

/// ML Flow Stack builder CLI
#[derive(Debug)]
pub struct StackArgs {
    /// Deploy the active project's model
    pub deploy: Option<Option<String>>,
    /// Initialize a component for the project
    pub init: Option<Option<String>>,
    /// Flag to initialize a model
    pub model: Option<String>,
    /// Flag to initialize a model repository
    pub repo: Option<Option<String>>,
    /// Run an experiment
    pub run: Option<String>,
    /// Sync the models to ML Flow
    pub sync: bool,
    /// Build the docker image with no caching
    pub no_cache: bool,
}

/// The text of a flag with an optional value.
pub open spec fn optional_flag(flag: Option<Option<String>>) -> Option<Option<Seq<char>>> {
    match flag {
        Some(value) => Some(optional_text(value)),
        None => None,
    }
}

impl View for StackArgs {
    type V = StackArgsView;

    open spec fn view(&self) -> StackArgsView {
        StackArgsView {
            deploy: optional_flag(self.deploy),
            init: optional_flag(self.init),
            model: optional_text(self.model),
            repo: optional_flag(self.repo),
            run: optional_text(self.run),
            sync: self.sync,
            no_cache: self.no_cache,
        }
    }
}

/// How many of the four actions `--deploy`, `--run`, `--sync` and `--init`
/// the command line asks for.
pub open spec fn action_count(args: StackArgsView) -> nat {
    let deploy: nat = if args.deploy is Some { 1 } else { 0 };
    let run: nat = if args.run is Some { 1 } else { 0 };
    let sync: nat = if args.sync { 1 } else { 0 };
    let init: nat = if args.init is Some { 1 } else { 0 };
    deploy + run + sync + init
}

/// What `--init` asks for, given its own value and the flags `--model` and
/// `--repo`; `None` for a combination that makes no sense.
pub open spec fn init_action(
    init: Option<Seq<char>>,
    model: Option<Seq<char>>,
    repo: Option<Option<Seq<char>>>,
) -> Option<StackActionView> {
    match init {
        Some(project) => if repo is Some || model is Some {
            None
        } else {
            Some(StackActionView::InitializeProject(project))
        },
        None => match repo {
            Some(Some(repository)) => if model is Some {
                None
            } else {
                Some(StackActionView::InitializeModelRepository(repository))
            },
            Some(None) => match model {
                Some(name) => Some(StackActionView::InitializeModelInRepository(name)),
                None => None,
            },
            None => match model {
                Some(name) => Some(StackActionView::InitializeModel(name)),
                None => None,
            },
        },
    }
}

/// The action that a command line selects: exactly one of the four actions
/// must be asked for, and `--init` must make sense with `--model` and
/// `--repo`. Without `--init` the flags `--model` and `--repo` say nothing,
/// as does `--no-cache` without `--run`.
pub open spec fn selected_action(args: StackArgsView) -> Option<StackActionView> {
    if action_count(args) != 1 {
        None
    } else if args.init is Some {
        init_action(args.init->0, args.model, args.repo)
    } else if args.deploy is Some {
        Some(StackActionView::Deploy(args.deploy->0))
    } else if args.run is Some {
        Some(StackActionView::RunExperiment(args.run->0, args.no_cache))
    } else {
        Some(StackActionView::Sync)
    }
}

impl StackArgs {
    /// Checks that exactly one action is asked for.
    pub fn validate(&self) -> (r: Result<(), StackError>)
        ensures
            action_count(self@) == 1 ==> r is Ok,
            action_count(self@) != 1 ==> (r matches Err(StackError::ValidationError)),
    {
        let mut i: usize = 0;
        if self.deploy.is_some() {
            i += 1;
        }
        if self.run.is_some() {
            i += 1;
        }
        if self.sync {
            i += 1;
        }
        if self.init.is_some() {
            i += 1;
        }
        if i == 1 {
            Ok(())
        } else {
            Err(StackError::ValidationError)
        }
    }

    /// Determines the action that the command line selects. A command line
    /// that selects none is refused.
    pub fn action(&self) -> (r: Result<StackAction, StackError>)
        ensures
            match selected_action(self@) {
                Some(action) => r matches Ok(a) && a@ == action,
                None => r matches Err(StackError::ValidationError),
            },
    {
        match self.validate() {
            Err(e) => {
                return Err(StackError::ValidationError);
            },
            Ok(_) => {},
        }
        /* Check for Init Group */
        if let Some(x) = &self.init {
            let secondary_init = self.repo.is_some() || self.model.is_some();
            /* Init a Project */
            if let Some(x) = x {
                if secondary_init {
                    return Err(StackError::ValidationError);
                }
                return Ok(StackAction::InitializeProject(x.clone()));
            }
            if let Some(Some(_)) = &self.repo {
                if self.model.is_some() {
                    return Err(StackError::ValidationError);
                }
            }
            /* Init a Model Repo */
            if let Some(x) = &self.repo {
                if let Some(x) = x {
                    return Ok(StackAction::InitializeModelRepository(x.clone()));
                }
            }
            /* Init a new Model */
            if let Some(x) = &self.model {
                /* Init a new Model in the Model Repository */
                if let Some(None) = &self.repo {
                    return Ok(StackAction::InitializeModelInRepository(x.clone()));
                }
                /* Init a new Model in the Deployment Repository */
                return Ok(StackAction::InitializeModel(x.clone()));
            }
            return Err(StackError::ValidationError);
        }
        /* Check for Deploy Group */
        if let Some(x) = &self.deploy {
            return Ok(StackAction::Deploy(crate::text::clone_optional(x)));
        }
        /* Check for Run Experiment Group */
        if let Some(x) = &self.run {
            return Ok(StackAction::RunExperiment(x.clone(), self.no_cache));
        }
        /* Check for syncing to ML Flow */
        Ok(StackAction::Sync)
    }
}

} // verus!
