//! Setting up the branch of a new model in the model repository.
//!
//! The branch starts without history. Everything that the previous branch
//! left in the working tree is removed, but for what every branch keeps, and
//! only after the tool has found the tree free of changes that no commit
//! holds.
use crate::constants::configuration::SRC_FOLDER;
use crate::error::StackError;
use crate::git::Outcome;
use crate::text::{same_text, text_views};
use crate::util::file::{file_views, path_views, PlannedFile, PlannedFileView};
use crate::util::formatting::{folder_name, format_folder};
use vstd::prelude::*;
use vstd::string::*;

verus! {

/// The branch that holds the first version of the model `model`.
pub open spec fn first_branch(model: Seq<char>) -> Seq<char> {
    folder_name(model) + "@0.0.0"@
}

/// Names the branch that holds the first version of a model.
pub fn branch_name(model: &str) -> (r: String)
    ensures
        r@ == first_branch(model@),
{
    let mut name = format_folder(model);
    name.append("@0.0.0");
    name
}

/// The message of the commit that starts the branch.
pub open spec fn first_message(branch: Seq<char>) -> Seq<char> {
    "Initial commit of "@ + branch
}

/// Words the commit that starts a branch.
pub fn commit_message(branch: &str) -> (r: String)
    ensures
        r@ == first_message(branch@),
{
    let mut message = "Initial commit of ".to_owned();
    message.append(branch);
    message
}

/// An entry of the working tree's top folder.
#[derive(Debug)]
pub struct FolderEntry {
    /// The entry's name, without its folder.
    pub name: String,
    /// Whether the entry is a regular file.
    pub is_file: bool,
}

/// Whether an entry stays when the working tree is cleared: the files
/// `.gitignore` and `README.md`, and the folder `.git`.
pub open spec fn is_kept(name: Seq<char>, is_file: bool) -> bool {
    if is_file {
        name == ".gitignore"@ || name == "README.md"@
    } else {
        name == ".git"@
    }
}

/// The names of the entries to remove, in the order of the entries: all but
/// those that stay.
pub open spec fn flushed(entries: Seq<FolderEntry>) -> Seq<Seq<char>>
    decreases entries.len(),
{
    if entries.len() == 0 {
        Seq::empty()
    } else {
        let before = flushed(entries.drop_last());
        if is_kept(entries.last().name@, entries.last().is_file) {
            before
        } else {
            before.push(entries.last().name@)
        }
    }
}

/// An entry is removed exactly when it is listed and does not stay; so
/// nothing that stays is ever removed.
pub proof fn flushed_spares_the_kept(entries: Seq<FolderEntry>, name: Seq<char>)
    ensures
        flushed(entries).contains(name) <==> exists|i: int|
            0 <= i < entries.len() && (#[trigger] entries[i]).name@ == name && !is_kept(
                name,
                entries[i].is_file,
            ),
    decreases entries.len(),
{
    if entries.len() > 0 {
        let head = entries.drop_last();
        let last = entries.last();
        let before = flushed(head);
        flushed_spares_the_kept(head, name);
        if before.contains(name) {
            let i = choose|i: int|
                0 <= i < head.len() && (#[trigger] head[i]).name@ == name && !is_kept(
                    name,
                    head[i].is_file,
                );
            assert(entries[i] == head[i]);
            if !is_kept(last.name@, last.is_file) {
                let j = choose|j: int| 0 <= j < before.len() && before[j] == name;
                assert(before.push(last.name@)[j] == name);
            }
        }
        if last.name@ == name && !is_kept(name, last.is_file) {
            assert(entries[entries.len() - 1] == last);
            assert(before.push(last.name@)[before.len() as int] == name);
        }
        if flushed(entries).contains(name) && !before.contains(name) {
            let j = choose|j: int| 0 <= j < flushed(entries).len() && flushed(entries)[j] == name;
            if j < before.len() {
                assert(before[j] == name);
            }
            assert(entries[entries.len() - 1] == last);
        }
        if exists|i: int|
            0 <= i < entries.len() && (#[trigger] entries[i]).name@ == name && !is_kept(
                name,
                entries[i].is_file,
            ) {
            let i = choose|i: int|
                0 <= i < entries.len() && (#[trigger] entries[i]).name@ == name && !is_kept(
                    name,
                    entries[i].is_file,
                );
            if i < head.len() {
                assert(head[i] == entries[i]);
            }
        }
    }
}

/// Tells whether an entry stays when the working tree is cleared.
pub fn keeps(name: &str, is_file: bool) -> (r: bool)
    ensures
        r == is_kept(name@, is_file),
{
    if is_file {
        same_text(name, ".gitignore") || same_text(name, "README.md")
    } else {
        same_text(name, ".git")
    }
}

/// Lists the entries of the working tree's top folder to remove, given all
/// its entries.
pub fn flush_content(entries: &Vec<FolderEntry>) -> (r: Vec<String>)
    ensures
        text_views(r@) == flushed(entries@),
{
    let mut out: Vec<String> = Vec::new();
    let mut i: usize = 0;
    assert(text_views(out@) =~= Seq::empty());
    while i < entries.len()
        invariant
            i <= entries.len(),
            text_views(out@) == flushed(entries@.take(i as int)),
        decreases entries.len() - i,
    {
        let ghost before = out@;
        proof {
            assert(entries@.take(i + 1).drop_last() == entries@.take(i as int));
            assert(entries@.take(i + 1).last() == entries@[i as int]);
        }
        if !keeps(entries[i].name.as_str(), entries[i].is_file) {
            let name = entries[i].name.clone();
            out.push(name);
            assert(text_views(before.push(name)) =~= text_views(before).push(name@));
        }
        i += 1;
    }
    assert(entries@.take(entries@.len() as int) == entries@);
    out
}

/// The skeleton of a model's branch: the source folder, the list of
/// requirements beside it and the entry point in it.
#[derive(Debug)]
pub struct SamplePlan {
    /// The folders to make.
    pub directories: Vec<Vec<String>>,
    /// The files to write.
    pub files: Vec<PlannedFile>,
}

/// Plans the skeleton of a model's branch from the texts of its two files.
pub fn write_sample(requirements: &str, entry_point: &str) -> (plan: SamplePlan)
    ensures
        path_views(plan.directories@) == seq![seq![SRC_FOLDER@]],
        file_views(plan.files@) == seq![
            PlannedFileView { path: seq!["requirements.txt"@], content: requirements@ },
            PlannedFileView { path: seq![SRC_FOLDER@, "__main__.py"@], content: entry_point@ },
        ],
{
    let mut source: Vec<String> = Vec::new();
    source.push(SRC_FOLDER.to_owned());
    let mut directories: Vec<Vec<String>> = Vec::new();
    directories.push(source);
    let mut home: Vec<String> = Vec::new();
    home.push("requirements.txt".to_owned());
    let mut inner: Vec<String> = Vec::new();
    inner.push(SRC_FOLDER.to_owned());
    inner.push("__main__.py".to_owned());
    let mut files: Vec<PlannedFile> = Vec::new();
    files.push(PlannedFile { path: home, content: requirements.to_owned() });
    files.push(PlannedFile { path: inner, content: entry_point.to_owned() });
    proof {
        assert(text_views(source@) =~= seq![SRC_FOLDER@]);
        assert(path_views(directories@) =~= seq![seq![SRC_FOLDER@]]);
        assert(text_views(home@) =~= seq!["requirements.txt"@]);
        assert(text_views(inner@) =~= seq![SRC_FOLDER@, "__main__.py"@]);
        assert(file_views(files@) =~= seq![
            PlannedFileView { path: seq!["requirements.txt"@], content: requirements@ },
            PlannedFileView { path: seq![SRC_FOLDER@, "__main__.py"@], content: entry_point@ },
        ]);
    }
    SamplePlan { directories, files }
}

/// A step of setting up a model's branch.
#[derive(Debug, Clone, Copy, PartialEq, Eq, Structural)]
pub enum Step {
    /// Start the branch without history.
    Checkout,
    /// List the changes that no commit holds.
    CheckDiff,
    /// Remove what the previous branch left.
    Flush,
    /// Write the skeleton.
    WriteSample,
    /// Commit the skeleton.
    Commit,
    /// Push the branch.
    Publish,
    /// Nothing is left to do.
    Finished,
}

/// What follows a step, given how it ended; for the step that lists the
/// changes, `success` tells that none were found. A step that fails ends the
/// workflow: nothing is undone and nothing more is done.
pub open spec fn following(step: Step, outcome: Outcome) -> Result<Step, StackError> {
    match step {
        Step::Checkout => match outcome {
            Outcome::NotLaunched => Err(StackError::LaunchError),
            Outcome::Exited { success: false } => Err(StackError::ExecutionError),
            Outcome::Exited { success: true } => Ok(Step::CheckDiff),
        },
        Step::CheckDiff => match outcome {
            Outcome::NotLaunched => Err(StackError::LaunchError),
            Outcome::Exited { success: false } => Err(StackError::ValidationError),
            Outcome::Exited { success: true } => Ok(Step::Flush),
        },
        Step::Flush => match outcome {
            Outcome::Exited { success: true } => Ok(Step::WriteSample),
            _ => Err(StackError::IOError),
        },
        Step::WriteSample => match outcome {
            Outcome::Exited { success: true } => Ok(Step::Commit),
            _ => Err(StackError::IOError),
        },
        Step::Commit => match outcome {
            Outcome::NotLaunched => Err(StackError::LaunchError),
            Outcome::Exited { success: false } => Err(StackError::ExecutionError),
            Outcome::Exited { success: true } => Ok(Step::Publish),
        },
        Step::Publish => match outcome {
            Outcome::NotLaunched => Err(StackError::LaunchError),
            Outcome::Exited { success: false } => Err(StackError::ExecutionError),
            Outcome::Exited { success: true } => Ok(Step::Finished),
        },
        Step::Finished => Ok(Step::Finished),
    }
}

/// Tells what follows a step. The working tree is cleared only after the
/// tool has found it free of changes that no commit holds.
pub fn next_step(step: Step, outcome: Outcome) -> (r: Result<Step, StackError>)
    ensures
        r == following(step, outcome),
        r == Ok::<Step, StackError>(Step::Flush) ==> step == Step::CheckDiff && outcome == (
        Outcome::Exited { success: true }),
{
    match step {
        Step::Checkout => match outcome {
            Outcome::NotLaunched => Err(StackError::LaunchError),
            Outcome::Exited { success: false } => Err(StackError::ExecutionError),
            Outcome::Exited { success: true } => Ok(Step::CheckDiff),
        },
        Step::CheckDiff => match outcome {
            Outcome::NotLaunched => Err(StackError::LaunchError),
            Outcome::Exited { success: false } => Err(StackError::ValidationError),
            Outcome::Exited { success: true } => Ok(Step::Flush),
        },
        Step::Flush => match outcome {
            Outcome::Exited { success: true } => Ok(Step::WriteSample),
            _ => Err(StackError::IOError),
        },
        Step::WriteSample => match outcome {
            Outcome::Exited { success: true } => Ok(Step::Commit),
            _ => Err(StackError::IOError),
        },
        Step::Commit => match outcome {
            Outcome::NotLaunched => Err(StackError::LaunchError),
            Outcome::Exited { success: false } => Err(StackError::ExecutionError),
            Outcome::Exited { success: true } => Ok(Step::Publish),
        },
        Step::Publish => match outcome {
            Outcome::NotLaunched => Err(StackError::LaunchError),
            Outcome::Exited { success: false } => Err(StackError::ExecutionError),
            Outcome::Exited { success: true } => Ok(Step::Finished),
        },
        Step::Finished => Ok(Step::Finished),
    }
}

} // verus!
