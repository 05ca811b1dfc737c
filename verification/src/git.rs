//! The version control tool: the commands that the workflows run and what
//! their output means. Running them is left to the caller.
use crate::error::StackError;
use crate::text::{chars_of, starts_with, text_views, trim, trim_range, trimmed};
use crate::util::formatting::{pieces, pieces_never_empty};
use vstd::prelude::*;
use vstd::string::*;

verus! {

/// A commit message as the tool writes it on the command line: in double
/// quotes, with the characters that need it escaped, as the standard library
/// formats a string for debugging.
pub uninterp spec fn quoted(message: Seq<char>) -> Seq<char>;

/// `format!` with `{:?}` on a string: the text in double quotes, escaped as
/// the standard library escapes a string for debugging.
#[verifier::external_body]
fn quote(message: &str) -> (r: String)
    ensures
        r@ == quoted(message@),
{
    format!("{:?}", message)
}

/// How a run of the tool ended.
#[derive(Debug, Clone, Copy, PartialEq, Eq, Structural)]
pub enum Outcome {
    /// The tool could not be started.
    NotLaunched,
    /// The tool ran; `success` tells whether it ended without failure.
    Exited { success: bool },
}

/// What a run of the tool comes to: whether it succeeded, where it ran at
/// all.
pub fn handle_standard_result(outcome: Outcome) -> (r: Result<bool, StackError>)
    ensures
        r == match outcome {
            Outcome::NotLaunched => Err::<bool, StackError>(StackError::LaunchError),
            Outcome::Exited { success } => Ok::<bool, StackError>(success),
        },
{
    match outcome {
        Outcome::NotLaunched => Err(StackError::LaunchError),
        Outcome::Exited { success } => Ok(success),
    }
}

/// The line start that names the default branch in the description of a
/// remote.
pub open spec fn head_marker() -> Seq<char> {
    "HEAD branch:"@
}

/// The default branch that a line of the description of a remote names, if
/// it names one: what follows the marker, without white space around it.
pub open spec fn head_branch_in(line: Seq<char>) -> Option<Seq<char>> {
    let text = trimmed(line);
    if head_marker().is_prefix_of(text) {
        Some(trimmed(text.skip(head_marker().len() as int)))
    } else {
        None
    }
}

/// The default branch that the first of the lines to name one names.
pub open spec fn first_head_branch(lines: Seq<Seq<char>>) -> Option<Seq<char>>
    decreases lines.len(),
{
    if lines.len() == 0 {
        None
    } else {
        match first_head_branch(lines.drop_last()) {
            Some(branch) => Some(branch),
            None => head_branch_in(lines.last()),
        }
    }
}

proof fn first_head_branch_stays(lines: Seq<Seq<char>>, k: int)
    requires
        0 <= k <= lines.len(),
        first_head_branch(lines.take(k)) is Some,
    ensures
        first_head_branch(lines) == first_head_branch(lines.take(k)),
    decreases lines.len() - k,
{
    if k < lines.len() {
        assert(lines.take(k + 1).drop_last() == lines.take(k));
        first_head_branch_stays(lines, k + 1);
    } else {
        assert(lines.take(k) == lines);
    }
}

fn head_branch_at(chars: &Vec<char>, from: usize, to: usize) -> (r: Option<String>)
    requires
        from <= to <= chars.len(),
    ensures
        match r {
            Some(branch) => head_branch_in(chars@.subrange(from as int, to as int)) == Some(
                branch@,
            ),
            None => head_branch_in(chars@.subrange(from as int, to as int)) is None,
        },
{
    let line = trim_range(chars, from, to);
    if starts_with(line.as_str(), "HEAD branch:") {
        let text = chars_of(line.as_str());
        let marker = chars_of("HEAD branch:");
        assert(text@.subrange(marker@.len() as int, text@.len() as int) == text@.skip(
            marker@.len() as int,
        ));
        Some(trim_range(&text, marker.len(), text.len()))
    } else {
        None
    }
}

/// Finds the name of the default branch in the description of the remote
/// `origin`: the first line that starts with the marker names it.
pub fn head_branch_name(output: &str) -> (r: Result<String, StackError>)
    ensures
        match first_head_branch(pieces(output@, '\n')) {
            Some(branch) => r matches Ok(name) && name@ == branch,
            None => r matches Err(StackError::ExecutionError),
        },
{
    let chars = chars_of(output);
    let mut start: usize = 0;
    let mut i: usize = 0;
    proof {
        reveal_with_fuel(first_head_branch, 2);
        assert(chars@.take(0).len() == 0);
        assert(pieces(chars@.take(0), '\n') =~= seq![Seq::<char>::empty()]);
        assert(pieces(chars@.take(0), '\n').drop_last() =~= Seq::<Seq<char>>::empty());
        assert(chars@.subrange(0, 0) =~= Seq::<char>::empty());
    }
    while i < chars.len()
        invariant
            start <= i <= chars.len(),
            chars@ == output@,
            pieces(chars@.take(i as int), '\n').len() >= 1,
            pieces(chars@.take(i as int), '\n').last() == chars@.subrange(start as int, i as int),
            first_head_branch(pieces(chars@.take(i as int), '\n').drop_last()) is None,
        decreases chars.len() - i,
    {
        let ghost lines = pieces(chars@.take(i as int), '\n');
        let ghost next = pieces(chars@.take(i + 1), '\n');
        proof {
            let taken = chars@.take(i + 1);
            assert(taken.drop_last() == chars@.take(i as int));
            assert(taken.last() == chars@[i as int]);
            pieces_never_empty(taken, '\n');
        }
        if chars[i] == '\n' {
            proof {
                assert(next == lines.push(Seq::empty()));
                assert(next.drop_last() == lines);
                assert(chars@.subrange(i + 1, i + 1) == Seq::<char>::empty());
            }
            match head_branch_at(&chars, start, i) {
                Some(branch) => {
                    proof {
                        let all = pieces(chars@, '\n');
                        let stop = chars@.take(i + 1);
                        assert(first_head_branch(lines) == Some(branch@));
                        lemma_pieces_prefix(chars@, i + 1, '\n');
                        first_head_branch_stays(all, lines.len() as int);
                    }
                    return Ok(branch);
                },
                None => {},
            }
            start = i + 1;
        } else {
            proof {
                assert(next.drop_last() == lines.drop_last());
                assert(chars@.subrange(start as int, i + 1) == chars@.subrange(
                    start as int,
                    i as int,
                ).push(chars@[i as int]));
            }
        }
        i += 1;
    }
    assert(chars@.take(chars@.len() as int) == chars@);
    match head_branch_at(&chars, start, i) {
        Some(branch) => Ok(branch),
        None => Err(StackError::ExecutionError),
    }
}

/// The pieces of a text that ends in a separator, but for the empty last one,
/// are the first pieces of any text that goes on from there.
proof fn lemma_pieces_prefix(s: Seq<char>, k: int, sep: char)
    requires
        0 < k <= s.len(),
        s[k - 1] == sep,
    ensures
        pieces(s.take(k), sep).len() >= 2,
        pieces(s, sep).len() >= pieces(s.take(k), sep).len() - 1,
        pieces(s, sep).take(pieces(s.take(k), sep).len() - 1) == pieces(s.take(k), sep).drop_last(),
    decreases s.len() - k,
{
    let cut = pieces(s.take(k), sep);
    pieces_never_empty(s.take(k).drop_last(), sep);
    assert(s.take(k).last() == sep);
    if k == s.len() {
        assert(s.take(k) == s);
        assert(cut.take(cut.len() - 1) == cut.drop_last());
    } else {
        lemma_pieces_grow(s, k, sep);
    }
}

/// Reading on never changes the pieces that a separator has closed.
proof fn lemma_pieces_grow(s: Seq<char>, k: int, sep: char)
    requires
        0 <= k <= s.len(),
    ensures
        pieces(s, sep).len() >= pieces(s.take(k), sep).len(),
        pieces(s, sep).take(pieces(s.take(k), sep).len() - 1) == pieces(s.take(k), sep).drop_last(),
    decreases s.len() - k,
{
    let cut = pieces(s.take(k), sep);
    pieces_never_empty(s.take(k), sep);
    if k == s.len() {
        assert(s.take(k) == s);
        assert(cut.take(cut.len() - 1) == cut.drop_last());
    } else {
        let more = pieces(s.take(k + 1), sep);
        assert(s.take(k + 1).drop_last() == s.take(k));
        lemma_pieces_grow(s, k + 1, sep);
        let all = pieces(s, sep);
        assert(all.take(more.len() - 1) == more.drop_last());
        if s[k] == sep {
            assert(more == cut.push(Seq::empty()));
            assert(more.drop_last() == cut);
            assert(all.take(cut.len() - 1) =~= all.take(more.len() - 1).take(cut.len() - 1));
            assert(cut.take(cut.len() - 1) == cut.drop_last());
        } else {
            assert(more.drop_last() == cut.drop_last());
        }
    }
}

/// Reads the name of the current branch from the tool's output.
pub fn branch_name(output: &str) -> (r: String)
    ensures
        r@ == trimmed(output@),
{
    trim(output)
}

/// Reads the full identifier of the current commit from the tool's output.
pub fn long_hash(output: &str) -> (r: String)
    ensures
        r@ == trimmed(output@),
{
    trim(output)
}

/// Reads the short identifier of the current commit from the tool's output.
pub fn short_hash(output: &str) -> (r: String)
    ensures
        r@ == trimmed(output@),
{
    trim(output)
}

/// Tells from the listed differences whether there are changes that no
/// commit holds: there are when anything is listed.
pub fn check_diff(output: &str) -> (r: bool)
    ensures
        r == (output@.len() > 0),
{
    let chars = chars_of(output);
    chars.len() > 0
}

/// The arguments that describe the remote `origin`.
pub fn describe_origin() -> (r: Vec<String>)
    ensures
        text_views(r@) == seq!["remote"@, "show"@, "origin"@],
{
    let mut args: Vec<String> = Vec::new();
    args.push("remote".to_owned());
    args.push("show".to_owned());
    args.push("origin".to_owned());
    assert(text_views(args@) =~= seq!["remote"@, "show"@, "origin"@]);
    args
}

/// The arguments that show the current branch.
pub fn show_branch() -> (r: Vec<String>)
    ensures
        text_views(r@) == seq!["branch"@, "--show-current"@],
{
    let mut args: Vec<String> = Vec::new();
    args.push("branch".to_owned());
    args.push("--show-current".to_owned());
    assert(text_views(args@) =~= seq!["branch"@, "--show-current"@]);
    args
}

/// The arguments that show the current commit, in full or in short.
pub fn show_hash(short: bool) -> (r: Vec<String>)
    ensures
        text_views(r@) == if short {
            seq!["rev-parse"@, "--short"@, "HEAD"@]
        } else {
            seq!["rev-parse"@, "HEAD"@]
        },
{
    let mut args: Vec<String> = Vec::new();
    args.push("rev-parse".to_owned());
    if short {
        args.push("--short".to_owned());
    }
    args.push("HEAD".to_owned());
    assert(short ==> text_views(args@) =~= seq!["rev-parse"@, "--short"@, "HEAD"@]);
    assert(!short ==> text_views(args@) =~= seq!["rev-parse"@, "HEAD"@]);
    args
}

/// The arguments that list the differences of the working tree.
pub fn show_diff() -> (r: Vec<String>)
    ensures
        text_views(r@) == seq!["diff"@],
{
    let mut args: Vec<String> = Vec::new();
    args.push("diff".to_owned());
    assert(text_views(args@) =~= seq!["diff"@]);
    args
}

/// The arguments that check a branch out.
pub fn checkout(branch: &str) -> (r: Vec<String>)
    ensures
        text_views(r@) == seq!["checkout"@, branch@],
{
    let mut args: Vec<String> = Vec::new();
    args.push("checkout".to_owned());
    args.push(branch.to_owned());
    assert(text_views(args@) =~= seq!["checkout"@, branch@]);
    args
}

/// The arguments that start a branch without history.
pub fn checkout_orphan(branch: &str) -> (r: Vec<String>)
    ensures
        text_views(r@) == seq!["checkout"@, "--orphan"@, branch@],
{
    let mut args: Vec<String> = Vec::new();
    args.push("checkout".to_owned());
    args.push("--orphan".to_owned());
    args.push(branch.to_owned());
    assert(text_views(args@) =~= seq!["checkout"@, "--orphan"@, branch@]);
    args
}

/// The arguments of the two runs that make a commit of everything: the first
/// stages all changes, the second commits them under the quoted message.
pub fn commit(message: &str) -> (r: (Vec<String>, Vec<String>))
    ensures
        text_views(r.0@) == seq!["add"@, "."@],
        text_views(r.1@) == seq!["commit"@, "-m"@, quoted(message@)],
{
    let mut stage: Vec<String> = Vec::new();
    stage.push("add".to_owned());
    stage.push(".".to_owned());
    let mut record: Vec<String> = Vec::new();
    record.push("commit".to_owned());
    record.push("-m".to_owned());
    record.push(quote(message));
    assert(text_views(stage@) =~= seq!["add"@, "."@]);
    assert(text_views(record@) =~= seq!["commit"@, "-m"@, quoted(message@)]);
    (stage, record)
}

/// What the two runs of a commit come to: the commit is not attempted unless
/// staging succeeded, and it succeeded when both runs did.
pub fn commit_result(staged: Outcome, committed: Outcome) -> (r: Result<bool, StackError>)
    ensures
        r == match staged {
            Outcome::NotLaunched => Err::<bool, StackError>(StackError::LaunchError),
            Outcome::Exited { success: false } => Ok::<bool, StackError>(false),
            Outcome::Exited { success: true } => match committed {
                Outcome::NotLaunched => Err::<bool, StackError>(StackError::LaunchError),
                Outcome::Exited { success } => Ok::<bool, StackError>(success),
            },
        },
{
    match handle_standard_result(staged) {
        Err(e) => Err(StackError::LaunchError),
        Ok(false) => Ok(false),
        Ok(true) => handle_standard_result(committed),
    }
}

/// The arguments that push a branch to `origin` and make it track the
/// remote branch.
pub fn publish_branch(branch: &str) -> (r: Vec<String>)
    ensures
        text_views(r@) == seq!["push"@, "-u"@, "origin"@, branch@],
{
    let mut args: Vec<String> = Vec::new();
    args.push("push".to_owned());
    args.push("-u".to_owned());
    args.push("origin".to_owned());
    args.push(branch.to_owned());
    assert(text_views(args@) =~= seq!["push"@, "-u"@, "origin"@, branch@]);
    args
}

} // verus!
