//! Tests for commands, help text and text rendering.

use bors::command::{CommandPrefix, CommitSha, RollupMode};
use bors::comment::{
    auto_build_push_failed_comment, auto_build_started_comment, auto_build_succeeded_comment,
    merge_conflict_comment, push_to_auto_branch_failed_comment,
};
use bors::forge::Forge;
use bors::help::{command_help, format_help};
use bors::store::Workflow;
use bors::strutil::u64_to_string;

#[test]
fn help_command() {
    let help = format_help();
    assert_eq!(
        help,
        "
You can use the following commands:

## PR management
- `r+ [p=<priority>] [rollup=<never|iffy|maybe|always>]`: Approve this PR on your behalf
    - Optionally, you can specify the `<priority>` of the PR and if it is eligible for rollups (`<rollup>)`.
- `r=<user> [p=<priority>] [rollup=<never|iffy|maybe|always>]`: Approve this PR on behalf of `<user>`
    - Optionally, you can specify the `<priority>` of the PR and if it is eligible for rollups (`<rollup>)`.
    - You can pass a comma-separated list of GitHub usernames.
- `r-`: Unapprove this PR
- `p=<priority>` or `priority=<priority>`: Set the priority of this PR
- `rollup=<never|iffy|maybe|always>`: Set the rollup status of the PR
- `rollup`: Short for `rollup=always`
- `rollup-`: Short for `rollup=maybe`
- `delegate=<try|review>`: Delegate permissions for running try builds or approving to the PR author
    - `try` allows the PR author to start try builds.
    - `review` allows the PR author to both start try builds and approve the PR.
- `delegate+`: Delegate approval permissions to the PR author
    - Shortcut for `delegate=review`
- `delegate-`: Remove any previously granted permission delegation
- `try [parent=<parent>] [jobs=<jobs>]`: Start a try build.
    - Optionally, you can specify a `<parent>` SHA with which will the PR be merged. You can specify `parent=last` to use the same parent SHA as the previous try build.
    - Optionally, you can select a comma-separated list of CI `<jobs>` to run in the try build.
- `try cancel`: Cancel a running try build
- `info`: Get information about the current PR

## Repository management
- `treeclosed=<priority>`: Close the tree for PRs with priority less than `<priority>`
- `treeclosed-` or `treeopen`: Open the repository tree for merging

## Meta commands
- `ping`: Check if the bot is alive
- `help`: Print this help message
"
    );
}

#[test]
fn rollup_mode_round_trip() {
    for (text, mode) in [
        ("always", RollupMode::Always),
        ("iffy", RollupMode::Iffy),
        ("never", RollupMode::Never),
        ("maybe", RollupMode::Maybe),
    ] {
        assert_eq!(RollupMode::from_str(text), Ok(mode));
        assert_eq!(mode.as_str(), text);
    }
}

#[test]
fn rollup_mode_rejects_unknown() {
    assert_eq!(
        RollupMode::from_str("sometimes"),
        Err("Invalid rollup mode `sometimes`. Possible values are always/iffy/never/maybe"
            .to_string())
    );
}

#[test]
fn command_prefix() {
    let prefix = CommandPrefix::from("@bors".to_string());
    assert_eq!(prefix.as_str(), "@bors");
}

#[test]
fn commit_sha_as_str() {
    let sha = CommitSha("abc123".to_string());
    assert_eq!(sha.as_str(), "abc123");
}

#[test]
fn decimal_rendering() {
    assert_eq!(u64_to_string(0), "0");
    assert_eq!(u64_to_string(7), "7");
    assert_eq!(u64_to_string(42), "42");
    assert_eq!(u64_to_string(1000), "1000");
    assert_eq!(u64_to_string(u64::MAX), "18446744073709551615");
}

#[test]
fn started_comment_rendering() {
    let c = auto_build_started_comment(&"pr-1-sha".to_string(), &"merge-0-pr-1".to_string());
    assert_eq!(c, ":hourglass: Testing commit pr-1-sha with merge merge-0-pr-1...");
}

#[test]
fn success_comment_joins_workflows() {
    let workflows = vec![
        Workflow {
            build_id: 1,
            name: "Workflow1".to_string(),
            url: "https://ci.example/1".to_string(),
        },
        Workflow {
            build_id: 2,
            name: "Other".to_string(),
            url: "https://ci.example/other".to_string(),
        },
        Workflow {
            build_id: 1,
            name: "Workflow2".to_string(),
            url: "https://ci.example/2".to_string(),
        },
    ];
    let c = auto_build_succeeded_comment(
        &workflows,
        1,
        &None,
        &"merge-0-pr-1".to_string(),
        &"main".to_string(),
    );
    assert_eq!(
        c,
        ":sunny: Test successful - [Workflow1](https://ci.example/1), [Workflow2](https://ci.example/2)\nApproved by: `<unknown>`\nPushing merge-0-pr-1 to `main`..."
    );
}

#[test]
fn push_failed_comment_rendering() {
    let c = auto_build_push_failed_comment("IO error");
    assert_eq!(c, ":eyes: Test was successful, but fast-forwarding failed: IO error");
}

#[test]
fn conflict_comment_rendering() {
    let c = merge_conflict_comment("pr-9-sha");
    assert_eq!(
        c,
        ":lock: Merge conflict: commit pr-9-sha does not merge cleanly into the base branch."
    );
}

#[test]
fn push_to_auto_failed_comment_rendering() {
    let c = push_to_auto_branch_failed_comment(
        &"merge-0-pr-1".to_string(),
        "automation/bors/auto",
        "validation failed",
    );
    assert_eq!(
        c,
        ":warning: Could not push merge commit merge-0-pr-1 to `automation/bors/auto`: validation failed"
    );
}

#[test]
fn help_command_posts_comment() {
    let mut forge = Forge {
        branches: vec![],
        prs: vec![],
        check_runs: vec![],
        comments: vec![],
        workflow_runs: vec![],
        merge_parents: vec![],
        next_check_run_id: 1,
        merge_counter: 0,
        push_failures: vec![],
        validation_failures: vec![],
        check_run_failure: false,
        merge_failure: false,
    };
    command_help(&mut forge, 7);
    let comment = forge.comments.last().expect("a comment");
    assert_eq!(comment.pr_number, 7);
    assert_eq!(comment.text, format_help());
}
