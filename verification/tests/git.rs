use ml_stack::error::StackError;
use ml_stack::git::{
    branch_name,
    check_diff,
    checkout,
    checkout_orphan,
    commit,
    commit_result,
    describe_origin,
    handle_standard_result,
    head_branch_name,
    long_hash,
    publish_branch,
    short_hash,
    show_branch,
    show_diff,
    show_hash,
    Outcome,
};

const REMOTE: &str = "* remote origin\n  Fetch URL: git@example.org:team/models.git\n  Push  URL: git@example.org:team/models.git\n  HEAD branch: main\n  Remote branches:\n    main tracked\n";

#[test]
fn head_branch_is_read_from_the_marked_line() {
    assert_eq!(head_branch_name(REMOTE).unwrap(), "main");
    assert_eq!(head_branch_name("HEAD branch:master").unwrap(), "master");
    assert_eq!(head_branch_name("\t HEAD branch:   dev/one  \r\nrest").unwrap(), "dev/one");
    assert_eq!(head_branch_name("HEAD branch:").unwrap(), "");
    assert_eq!(head_branch_name("HEAD branch: a:b").unwrap(), "a:b");
}

#[test]
fn first_marked_line_names_the_head_branch() {
    assert_eq!(head_branch_name("x\nHEAD branch: one\nHEAD branch: two\n").unwrap(), "one");
}

#[test]
fn head_branch_is_missing_without_a_marked_line() {
    assert!(matches!(head_branch_name(""), Err(StackError::ExecutionError)));
    assert!(matches!(head_branch_name("\n\n"), Err(StackError::ExecutionError)));
    assert!(matches!(head_branch_name("head branch: main"), Err(StackError::ExecutionError)));
    assert!(matches!(head_branch_name("  the HEAD branch: main"), Err(StackError::ExecutionError)));
    assert!(matches!(head_branch_name("HEAD\nbranch: main"), Err(StackError::ExecutionError)));
}

#[test]
fn names_and_hashes_are_trimmed() {
    assert_eq!(branch_name("  main\n"), "main");
    assert_eq!(branch_name("\n"), "");
    assert_eq!(branch_name("feature one"), "feature one");
    assert_eq!(long_hash("0123456789abcdef0123456789abcdef01234567\n").len(), 40);
    assert_eq!(short_hash(" 0123abc \n"), "0123abc");
    assert_eq!(short_hash("\u{2003}0123abc\u{a0}"), "0123abc");
}

#[test]
fn any_listed_difference_counts_as_a_change() {
    assert!(!check_diff(""));
    assert!(check_diff("\n"));
    assert!(check_diff("diff --git a/x b/x\n"));
}

#[test]
fn commands_have_fixed_arguments() {
    assert_eq!(describe_origin(), vec!["remote", "show", "origin"]);
    assert_eq!(show_branch(), vec!["branch", "--show-current"]);
    assert_eq!(show_hash(false), vec!["rev-parse", "HEAD"]);
    assert_eq!(show_hash(true), vec!["rev-parse", "--short", "HEAD"]);
    assert_eq!(show_diff(), vec!["diff"]);
    assert_eq!(checkout("main"), vec!["checkout", "main"]);
    assert_eq!(checkout_orphan("m@0.0.0"), vec!["checkout", "--orphan", "m@0.0.0"]);
    assert_eq!(publish_branch("m@0.0.0"), vec!["push", "-u", "origin", "m@0.0.0"]);
}

#[test]
fn commit_stages_everything_and_quotes_the_message() {
    let (stage, record) = commit("Initial commit of m@0.0.0");
    assert_eq!(stage, vec!["add", "."]);
    assert_eq!(record, vec!["commit", "-m", "\"Initial commit of m@0.0.0\""]);
    let (_, record) = commit("say \"hi\"\n");
    assert_eq!(record[2], "\"say \\\"hi\\\"\\n\"");
}

#[test]
fn tool_that_does_not_start_is_a_launch_error() {
    assert!(matches!(handle_standard_result(Outcome::NotLaunched), Err(StackError::LaunchError)));
    assert_eq!(handle_standard_result(Outcome::Exited { success: true }).unwrap(), true);
    assert_eq!(handle_standard_result(Outcome::Exited { success: false }).unwrap(), false);
}

#[test]
fn commit_stops_at_the_first_failure() {
    let ok = Outcome::Exited { success: true };
    let failed = Outcome::Exited { success: false };
    assert_eq!(commit_result(ok, ok).unwrap(), true);
    assert_eq!(commit_result(ok, failed).unwrap(), false);
    assert_eq!(commit_result(failed, ok).unwrap(), false);
    assert_eq!(commit_result(failed, Outcome::NotLaunched).unwrap(), false);
    assert!(matches!(commit_result(Outcome::NotLaunched, ok), Err(StackError::LaunchError)));
    assert!(matches!(commit_result(ok, Outcome::NotLaunched), Err(StackError::LaunchError)));
}
