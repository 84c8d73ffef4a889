//! The `@bors help` text.

use vstd::prelude::*;
use crate::command::BorsCommand;
use crate::forge::{spec_post_comment, Forge};

verus! {

/// The bors command help, in Markdown.
pub open spec fn help_text() -> Seq<char> {
    "
You can use the following commands:

## PR management
- `r+ [p=<priority>] [rollup=<never|iffy|maybe|always>]`: Approve this PR on your behalf
    - Optionally, you can specify the `<priority>` of the PR and if it is eligible for rollups (`<rollup>)`.
- `r=<user> [p=<priority>] [rollup=<never|iffy|maybe|always>]`: Approve this PR on behalf of `<user>`
    - Optionally, you can specify the `<priority>` of the PR and if it is eligible for rollups (`<rollup>)`.
    - You can pass a comma-separated list of GitHub usernames.
- `r-`: Unapprove this PR
- `p=<priority>` or `priority=<priority>`: Set the priority of this PR
- `rollup=<never|iffy|maybe|always>`: Set the rollup status of the PR
- `rollup`: Short for `rollup=always`
- `rollup-`: Short for `rollup=maybe`
- `delegate=<try|review>`: Delegate permissions for running try builds or approving to the PR author
    - `try` allows the PR author to start try builds.
    - `review` allows the PR author to both start try builds and approve the PR.
- `delegate+`: Delegate approval permissions to the PR author
    - Shortcut for `delegate=review`
- `delegate-`: Remove any previously granted permission delegation
- `try [parent=<parent>] [jobs=<jobs>]`: Start a try build.
    - Optionally, you can specify a `<parent>` SHA with which will the PR be merged. You can specify `parent=last` to use the same parent SHA as the previous try build.
    - Optionally, you can select a comma-separated list of CI `<jobs>` to run in the try build.
- `try cancel`: Cancel a running try build
- `info`: Get information about the current PR

## Repository management
- `treeclosed=<priority>`: Close the tree for PRs with priority less than `<priority>`
- `treeclosed-` or `treeopen`: Open the repository tree for merging

## Meta commands
- `ping`: Check if the bot is alive
- `help`: Print this help message
"@
}

/// Format the bors command help in Markdown format.
pub fn format_help() -> (r: &'static str)
    ensures
        r@ == help_text(),
{
    // The help is generated manually to have a nicer structure.
    // We do a no-op destructuring of `BorsCommand` to make it harder to
    // forget updating the help in case new commands are added.
    match BorsCommand::Ping {
        BorsCommand::Approve { approver: _, rollup: _, priority: _ } => {},
        BorsCommand::Unapprove => {},
        BorsCommand::Help => {},
        BorsCommand::Ping => {},
        BorsCommand::Try { parent: _, jobs: _ } => {},
        BorsCommand::TryCancel => {},
        BorsCommand::SetPriority(_) => {},
        BorsCommand::Info => {},
        BorsCommand::SetDelegate(_) => {},
        BorsCommand::Undelegate => {},
        BorsCommand::SetRollupMode(_) => {},
        BorsCommand::OpenTree => {},
        BorsCommand::TreeClosed(_) => {},
        BorsCommand::Retry => {},
    }

    "
You can use the following commands:

## PR management
- `r+ [p=<priority>] [rollup=<never|iffy|maybe|always>]`: Approve this PR on your behalf
    - Optionally, you can specify the `<priority>` of the PR and if it is eligible for rollups (`<rollup>)`.
- `r=<user> [p=<priority>] [rollup=<never|iffy|maybe|always>]`: Approve this PR on behalf of `<user>`
    - Optionally, you can specify the `<priority>` of the PR and if it is eligible for rollups (`<rollup>)`.
    - You can pass a comma-separated list of GitHub usernames.
- `r-`: Unapprove this PR
- `p=<priority>` or `priority=<priority>`: Set the priority of this PR
- `rollup=<never|iffy|maybe|always>`: Set the rollup status of the PR
- `rollup`: Short for `rollup=always`
- `rollup-`: Short for `rollup=maybe`
- `delegate=<try|review>`: Delegate permissions for running try builds or approving to the PR author
    - `try` allows the PR author to start try builds.
    - `review` allows the PR author to both start try builds and approve the PR.
- `delegate+`: Delegate approval permissions to the PR author
    - Shortcut for `delegate=review`
- `delegate-`: Remove any previously granted permission delegation
- `try [parent=<parent>] [jobs=<jobs>]`: Start a try build.
    - Optionally, you can specify a `<parent>` SHA with which will the PR be merged. You can specify `parent=last` to use the same parent SHA as the previous try build.
    - Optionally, you can select a comma-separated list of CI `<jobs>` to run in the try build.
- `try cancel`: Cancel a running try build
- `info`: Get information about the current PR

## Repository management
- `treeclosed=<priority>`: Close the tree for PRs with priority less than `<priority>`
- `treeclosed-` or `treeopen`: Open the repository tree for merging

## Meta commands
- `ping`: Check if the bot is alive
- `help`: Print this help message
"
}

/// Answer a `help` command: post the command help as a comment on the
/// pull request.
pub fn command_help(forge: &mut Forge, pr_number: u64)
    ensures
        final(forge)@ == spec_post_comment(old(forge)@, pr_number, help_text()),
{
    let help = format_help();
    forge.post_comment(pr_number, help.to_owned());
}

} // verus!
