//! Commands that users give to the bot on pull request comments.

use vstd::prelude::*;
use vstd::string::StringExecFns;

verus! {

/// Priority of a commit.
pub type Priority = u32;

/// A commit hash, as reported by the forge.
#[derive(Clone, Debug, PartialEq)]
pub struct CommitSha(pub String);

impl CommitSha {
    pub fn as_str(&self) -> (r: &str)
        ensures
            r@ == self.0@,
    {
        self.0.as_str()
    }
}

/// Permissions that can be delegated to a pull request author.
#[derive(Copy, Clone, Debug, PartialEq, Eq, Structural)]
pub enum DelegatedPermission {
    /// The author may start try builds.
    Try,
    /// The author may start try builds and approve the pull request.
    Review,
}

/// Command prefix used to identify bors commands, e.g. `@bors`.
pub struct CommandPrefix(pub String);

impl CommandPrefix {
    /// The prefix as a borrowed string.
    pub fn as_str(&self) -> (r: &str)
        ensures
            r@ == self.0@,
    {
        self.0.as_str()
    }
}

impl From<String> for CommandPrefix {
    fn from(value: String) -> (r: Self) {
        CommandPrefix(value)
    }
}

impl vstd::std_specs::convert::FromSpecImpl<String> for CommandPrefix {
    open spec fn obeys_from_spec() -> bool {
        true
    }

    open spec fn from_spec(value: String) -> Self {
        CommandPrefix(value)
    }
}

/// Type of parent allowed in a try build
#[derive(Clone, Debug, PartialEq)]
pub enum Parent {
    /// Regular commit sha: parent="<sha>"
    CommitSha(CommitSha),
    /// Use last build's parent: parent="last"
    Last,
}

#[derive(Clone, Debug, PartialEq)]
pub enum Approver {
    /// The approver is the same as the comment author.
    Myself,
    /// The approver is specified by the user.
    Specified(String),
}

#[derive(Copy, Clone, Debug, PartialEq, Eq, Structural)]
pub enum RollupMode {
    Always,
    Iffy,
    Maybe,
    Never,
}

/// The spelling of a rollup mode in commands and in rendered text.
pub open spec fn rollup_mode_text(mode: RollupMode) -> Seq<char> {
    match mode {
        RollupMode::Always => "always"@,
        RollupMode::Iffy => "iffy"@,
        RollupMode::Never => "never"@,
        RollupMode::Maybe => "maybe"@,
    }
}

impl RollupMode {
    /// Render the mode the way commands spell it.
    pub fn as_str(&self) -> (r: &'static str)
        ensures
            r@ == rollup_mode_text(*self),
    {
        match self {
            RollupMode::Always => "always",
            RollupMode::Iffy => "iffy",
            RollupMode::Never => "never",
            RollupMode::Maybe => "maybe",
        }
    }

    /// Parse a rollup mode; the error message names the accepted values.
    pub fn from_str(s: &str) -> (r: Result<RollupMode, String>)
        ensures
            r matches Ok(mode) ==> s@ == rollup_mode_text(mode),
            r matches Err(msg) ==> {
                &&& msg@ == "Invalid rollup mode `"@ + s@
                    + "`. Possible values are always/iffy/never/maybe"@
                &&& s@ != rollup_mode_text(RollupMode::Always)
                &&& s@ != rollup_mode_text(RollupMode::Iffy)
                &&& s@ != rollup_mode_text(RollupMode::Maybe)
                &&& s@ != rollup_mode_text(RollupMode::Never)
            },
    {
        let owned = s.to_owned();
        if owned == String::from_str("always") {
            Ok(RollupMode::Always)
        } else if owned == String::from_str("iffy") {
            Ok(RollupMode::Iffy)
        } else if owned == String::from_str("never") {
            Ok(RollupMode::Never)
        } else if owned == String::from_str("maybe") {
            Ok(RollupMode::Maybe)
        } else {
            let mut msg = String::from_str("Invalid rollup mode `");
            msg.append(s);
            msg.append("`. Possible values are always/iffy/never/maybe");
            Err(msg)
        }
    }
}

/// Bors command specified by a user.
#[derive(Debug, PartialEq)]
pub enum BorsCommand {
    /// Approve a commit.
    Approve {
        /// Who is approving the commit.
        approver: Approver,
        /// Priority of the commit.
        priority: Option<Priority>,
        /// Rollup status of the commit.
        rollup: Option<RollupMode>,
    },
    /// Unapprove a commit.
    Unapprove,
    /// Print help.
    Help,
    /// Ping the bot.
    Ping,
    /// Perform a try build.
    Try {
        /// Parent commit which should be used as the merge base.
        parent: Option<Parent>,
        /// The CI workflow to run.
        jobs: Vec<String>,
    },
    /// Cancel a try build.
    TryCancel,
    /// Set the priority of a PR.
    SetPriority(Priority),
    /// Get information about the current PR.
    Info,
    /// Delegate approval authority to the pull request author.
    SetDelegate(DelegatedPermission),
    /// Revoke any previously granted delegation.
    Undelegate,
    /// Set the rollup mode of a PR.
    SetRollupMode(RollupMode),
    /// Open the repository tree for merging.
    OpenTree,
    /// Set the tree closed with a priority level.
    TreeClosed(Priority),
    /// Retry a previously run (auto) build.
    Retry,
}

} // verus!
