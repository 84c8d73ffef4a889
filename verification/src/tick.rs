//! The merge queue tick engine. One tick walks the known
//! repositories; for each it selects the next pull request by the sort
//! policy and drives it one step through the auto-build lifecycle:
//! resolve a finished build (fast-forward the base branch), block on a
//! pending build, or start a new build with a trial merge.
//!
//! The whole tick is a function over the repository's forge and store
//! state; `step_repo` says, value for value, what one tick does to one
//! repository, and the executable tick is proved equal to it.

use vstd::prelude::*;
use vstd::string::StringExecFns;
use crate::command::{CommitSha, Priority};
use crate::comment::{
    auto_build_push_failed_comment, auto_build_push_failed_text, auto_build_started_comment,
    auto_build_started_text, auto_build_succeeded_comment, auto_build_succeeded_text,
    merge_conflict_comment, merge_conflict_text, push_to_auto_branch_failed_comment,
    push_to_auto_branch_failed_text,
};
use crate::forge::{
    branch_sha, branch_update_error_text, first_match, has_branch, pr_numbered,
    spec_cancel_workflows, spec_create_check_run, spec_merge_branches, spec_post_comment,
    spec_runs_for_commit, spec_set_branch, spec_update_check_run, BranchUpdateError,
    CheckRunConclusion, CheckRunStatus, Forge, ForgeV, ForcePush, MergeError, WorkflowRunStatus,
};
use crate::queue::{lemma_queue_head_upto, queue_head, spec_queue_head};
use crate::store::{
    spec_attach_auto_build, spec_update_pr, BuildStatus, BuildV, MergeableState,
    PullRequestStatus, PullRequestV, Store, StoreError, StoreV,
};
use crate::strutil::{clone_string, decimal, u64_to_string};

verus! {

/// Branch used for performing merge operations.
/// This branch should not run CI checks.
pub open spec fn auto_merge_branch() -> Seq<char> {
    "automation/bors/auto-merge"@
}

/// Branch where CI checks run for auto builds.
/// This branch should run CI checks.
pub open spec fn auto_branch() -> Seq<char> {
    "automation/bors/auto"@
}

/// The name of the check run seen in the forge UI.
pub open spec fn auto_build_check_run_name() -> Seq<char> {
    "Bors auto build"@
}

/// The staging branch name, as a value.
pub fn auto_merge_branch_name() -> (r: String)
    ensures
        r@ == auto_merge_branch(),
{
    String::from_str("automation/bors/auto-merge")
}

/// The CI branch name, as a value.
pub fn auto_branch_name() -> (r: String)
    ensures
        r@ == auto_branch(),
{
    String::from_str("automation/bors/auto")
}

/// The check run name, as a value.
pub fn auto_build_check_run_name_string() -> (r: String)
    ensures
        r@ == auto_build_check_run_name(),
{
    String::from_str("Bors auto build")
}

/// One repository as the tick engine sees it: registry entry, tree
/// state, cooldown, and its forge and store state.
pub struct RepoState {
    pub name: String,
    /// Whether the merge queue is enabled in the repository's config.
    pub merge_queue_enabled: bool,
    /// Whether the store has a row for this repository.
    pub has_record: bool,
    /// The tree state's priority threshold; zero when the tree is open.
    pub min_priority: Priority,
    /// Monotonic-clock instant (milliseconds) until which the
    /// repository is skipped.
    pub cooldown_deadline: Option<u64>,
    pub forge: Forge,
    pub store: Store,
}

/// Mathematical model of a repository.
#[verifier::ext_equal]
pub ghost struct RepoStateV {
    pub name: Seq<char>,
    pub merge_queue_enabled: bool,
    pub has_record: bool,
    pub min_priority: Priority,
    pub cooldown_deadline: Option<u64>,
    pub forge: ForgeV,
    pub store: StoreV,
}

impl View for RepoState {
    type V = RepoStateV;

    open spec fn view(&self) -> RepoStateV {
        RepoStateV {
            name: self.name@,
            merge_queue_enabled: self.merge_queue_enabled,
            has_record: self.has_record,
            min_priority: self.min_priority,
            cooldown_deadline: self.cooldown_deadline,
            forge: self.forge@,
            store: self.store@,
        }
    }
}

impl DeepView for RepoState {
    type V = RepoStateV;

    open spec fn deep_view(&self) -> RepoStateV {
        self@
    }
}

/// What the tick engine needs of a repository's state: every stored
/// pull request has its base branch on the forge and a forge-side pull
/// request under its number, and the id counters have room.
pub open spec fn repo_wf(r: RepoStateV) -> bool {
    &&& forall|i: int|
        0 <= i < r.store.prs.len() ==> has_branch(
            r.forge,
            (#[trigger] r.store.prs[i]).base_branch,
        )
    &&& forall|i: int|
        0 <= i < r.store.prs.len() ==> first_match(
            r.forge.prs,
            pr_numbered((#[trigger] r.store.prs[i]).number),
        ) >= 0
    &&& r.store.next_build_id < u64::MAX
    &&& r.forge.next_check_run_id < u64::MAX
    &&& r.forge.merge_counter < u64::MAX
}

/// The deadline a cooldown of `secs` seconds set now expires at.
pub open spec fn cooldown_after(now: u64, secs: u64) -> u64 {
    if now + secs * 1000 > u64::MAX {
        u64::MAX
    } else {
        (now + secs * 1000) as u64
    }
}

/// Whether the repository is in cooldown at `now`.
pub open spec fn cooldown_active(r: RepoStateV, now: u64) -> bool {
    match r.cooldown_deadline {
        Some(d) => d > now,
        None => false,
    }
}

/// Whether the tick passes the repository over without touching it.
pub open spec fn skip_repo(r: RepoStateV, now: u64) -> bool {
    cooldown_active(r, now) || !r.has_record || !r.merge_queue_enabled
}

/// The commit message of the auto merge commit.
pub open spec fn merge_commit_message(
    number: u64,
    head_label: Seq<char>,
    approver: Option<Seq<char>>,
    title: Seq<char>,
    body: Seq<char>,
) -> Seq<char> {
    "Auto merge of #"@ + decimal(number as nat) + " - "@ + head_label + ", r="@
        + crate::comment::approver_text(approver) + "\n\n"@ + title + "\n\n"@ + body
}

/// The ids among (id, status) pairs whose run is queued or in
/// progress.
pub open spec fn pending_ids(runs: Seq<(u64, WorkflowRunStatus)>) -> Seq<u64>
    decreases runs.len(),
{
    if runs.len() == 0 {
        Seq::empty()
    } else {
        pending_ids(runs.drop_last()) + (if runs.last().1 == WorkflowRunStatus::Queued
            || runs.last().1 == WorkflowRunStatus::InProgress {
            seq![runs.last().0]
        } else {
            Seq::empty()
        })
    }
}

/// What a trial merge does to the forge, and what it yields.
#[verifier::ext_equal]
pub ghost enum AttemptV {
    /// A merge commit was created.
    Merged(Seq<char>),
    /// The heads do not merge.
    Conflicted,
    /// Resetting the staging branch failed.
    BranchErr(BranchUpdateError),
    /// The merge call failed in transport.
    TransportErr,
}

/// The forge after a trial merge of `head` over `base` on the staging
/// branch with commit message `message`, and the outcome.
pub open spec fn spec_attempt_merge(
    f: ForgeV,
    head: Seq<char>,
    base: Seq<char>,
    message: Seq<char>,
) -> (ForgeV, AttemptV) {
    let (f1, res1) = spec_set_branch(f, auto_merge_branch(), base, ForcePush::Yes);
    match res1 {
        Err(e) => (f1, AttemptV::BranchErr(e)),
        Ok(()) => {
            let (f2, res2) = spec_merge_branches(f1, auto_merge_branch(), head, message);
            match res2 {
                Ok(sha) => (f2, AttemptV::Merged(sha)),
                Err(MergeError::Conflict) => (f2, AttemptV::Conflicted),
                Err(MergeError::Transport) => (f2, AttemptV::TransportErr),
            }
        },
    }
}

/// How starting an auto build ended.
#[verifier::ext_equal]
pub ghost enum StartOutcomeV {
    /// The build started; the merge commit is on the CI branch.
    Started(Seq<char>),
    /// The trial merge conflicted and the pull request was marked.
    Conflict,
    /// The trial merge conflicted and marking the pull request failed.
    ConflictMarkFailed,
    /// The trial merge itself failed.
    MergeFailed,
    /// The merge commit could not be pushed to the CI branch.
    PushFailed(Seq<char>, BranchUpdateError),
    /// The build row could not be recorded in the store.
    RecordFailed(Seq<char>),
}

/// The repository after `start_auto_build` on the pull request at `i`,
/// and how it ended. Comments and rollback are the caller's part.
pub open spec fn spec_start_auto_build(r: RepoStateV, i: int) -> (RepoStateV, StartOutcomeV) {
    let pr = r.store.prs[i];
    let gi = first_match(r.forge.prs, pr_numbered(pr.number));
    let gh = r.forge.prs[gi];
    let base_sha = branch_sha(r.forge, pr.base_branch);
    let message = merge_commit_message(pr.number, gh.head_label, pr.approver, gh.title, gh.message);
    let (f2, attempt) = spec_attempt_merge(r.forge, gh.head_sha, base_sha, message);
    match attempt {
        AttemptV::BranchErr(_) => (RepoStateV { forge: f2, ..r }, StartOutcomeV::MergeFailed),
        AttemptV::TransportErr => (RepoStateV { forge: f2, ..r }, StartOutcomeV::MergeFailed),
        AttemptV::Conflicted => {
            if r.store.mergeable_failure {
                (RepoStateV { forge: f2, ..r }, StartOutcomeV::ConflictMarkFailed)
            } else {
                (
                    RepoStateV {
                        forge: f2,
                        store: spec_update_pr(
                            r.store,
                            i,
                            (PullRequestV {
                                mergeable_state: MergeableState::HasConflicts,
                                ..pr
                            }),
                        ),
                        ..r
                    },
                    StartOutcomeV::Conflict,
                )
            }
        },
        AttemptV::Merged(merge_sha) => {
            let (f3, res3) = spec_set_branch(f2, auto_branch(), merge_sha, ForcePush::Yes);
            match res3 {
                Err(e) => (
                    RepoStateV { forge: f3, ..r },
                    StartOutcomeV::PushFailed(merge_sha, e),
                ),
                Ok(()) => {
                    if r.store.attach_failure {
                        (RepoStateV { forge: f3, ..r }, StartOutcomeV::RecordFailed(merge_sha))
                    } else {
                        let build_id = r.store.next_build_id;
                        let s2 = spec_attach_auto_build(
                            r.store,
                            i,
                            auto_branch(),
                            merge_sha,
                            base_sha,
                        );
                        let (f4, res4) = spec_create_check_run(
                            f3,
                            auto_build_check_run_name(),
                            gh.head_sha,
                            build_id,
                        );
                        let s3 = match res4 {
                            Ok(cid) => spec_update_pr(
                                s2,
                                i,
                                (PullRequestV {
                                    auto_build: Some(
                                        BuildV {
                                            check_run_id: Some(cid),
                                            ..s2.prs[i].auto_build.unwrap()
                                        },
                                    ),
                                    ..s2.prs[i]
                                }),
                            ),
                            Err(_) => s2,
                        };
                        (
                            RepoStateV { forge: f4, store: s3, ..r },
                            StartOutcomeV::Started(merge_sha),
                        )
                    }
                },
            }
        },
    }
}

/// The repository after the tick handled the pull request at `i`,
/// which has no build: start one, and speak about it.
pub open spec fn step_start_build(r: RepoStateV, i: int, now: u64) -> RepoStateV {
    let pr = r.store.prs[i];
    let gi = first_match(r.forge.prs, pr_numbered(pr.number));
    let gh = r.forge.prs[gi];
    let base_sha = branch_sha(r.forge, pr.base_branch);
    let (r2, outcome) = spec_start_auto_build(r, i);
    match outcome {
        StartOutcomeV::Started(merge_sha) => RepoStateV {
            forge: spec_post_comment(
                r2.forge,
                pr.number,
                auto_build_started_text(gh.head_sha, merge_sha),
            ),
            ..r2
        },
        StartOutcomeV::MergeFailed => r2,
        StartOutcomeV::Conflict => RepoStateV {
            forge: spec_post_comment(r2.forge, pr.number, merge_conflict_text(gh.head_sha)),
            ..r2
        },
        StartOutcomeV::ConflictMarkFailed => RepoStateV {
            forge: spec_post_comment(r2.forge, pr.number, merge_conflict_text(gh.head_sha)),
            ..r2
        },
        StartOutcomeV::PushFailed(merge_sha, e) => RepoStateV {
            forge: spec_post_comment(
                r2.forge,
                pr.number,
                push_to_auto_branch_failed_text(
                    merge_sha,
                    auto_branch(),
                    branch_update_error_text(e),
                ),
            ),
            ..r2
        },
        StartOutcomeV::RecordFailed(merge_sha) => {
            let pend = pending_ids(spec_runs_for_commit(r2.forge.workflow_runs, merge_sha));
            let f4 = spec_cancel_workflows(r2.forge, pend);
            let (f5, _) = spec_set_branch(f4, auto_branch(), base_sha, ForcePush::Yes);
            RepoStateV { forge: f5, ..r2 }
        },
    }
}

/// The repository after the tick handled the pull request at `i`,
/// whose build succeeded: success comment, fast-forward, and the
/// matrix of recoveries.
pub open spec fn step_resolve_success(r: RepoStateV, i: int, now: u64) -> RepoStateV {
    let pr = r.store.prs[i];
    let b = pr.auto_build.unwrap();
    let comment = auto_build_succeeded_text(
        r.store.workflows,
        b.id,
        pr.approver,
        b.commit_sha,
        pr.base_branch,
    );
    let f1 = spec_post_comment(r.forge, pr.number, comment);
    let (f2, res) = spec_set_branch(f1, pr.base_branch, b.commit_sha, ForcePush::No);
    match res {
        Ok(()) => {
            if r.store.status_failure {
                RepoStateV {
                    forge: f2,
                    cooldown_deadline: Some(cooldown_after(now, 60)),
                    ..r
                }
            } else {
                RepoStateV {
                    forge: f2,
                    store: spec_update_pr(
                        r.store,
                        i,
                        (PullRequestV { status: PullRequestStatus::Merged, ..pr }),
                    ),
                    ..r
                }
            }
        },
        Err(BranchUpdateError::FastForwardConflict) => RepoStateV {
            forge: f2,
            cooldown_deadline: Some(cooldown_after(now, 5)),
            ..r
        },
        Err(e) => {
            let cd = if e == BranchUpdateError::ValidationFailed {
                Some(cooldown_after(now, 10))
            } else {
                r.cooldown_deadline
            };
            let f3 = match b.check_run_id {
                Some(cid) => spec_update_check_run(
                    f2,
                    cid,
                    CheckRunStatus::Completed,
                    Some(CheckRunConclusion::Failure),
                ).0,
                None => f2,
            };
            if r.store.build_status_failure {
                RepoStateV {
                    forge: f3,
                    cooldown_deadline: Some(cooldown_after(now, 60)),
                    ..r
                }
            } else {
                let s2 = spec_update_pr(
                    r.store,
                    i,
                    (PullRequestV {
                        auto_build: Some(BuildV { status: BuildStatus::Failure, ..b }),
                        ..pr
                    }),
                );
                let f4 = spec_post_comment(
                    f3,
                    pr.number,
                    auto_build_push_failed_text(branch_update_error_text(e)),
                );
                RepoStateV { forge: f4, store: s2, cooldown_deadline: cd, ..r }
            }
        },
    }
}

/// What one tick does to one repository.
pub open spec fn step_repo(r: RepoStateV, now: u64) -> RepoStateV {
    if skip_repo(r, now) {
        r
    } else {
        match spec_queue_head(r.store.prs, r.min_priority) {
            None => r,
            Some(i) => {
                let pr = r.store.prs[i as int];
                match pr.auto_build {
                    Some(b) => if b.status == BuildStatus::Pending {
                        r
                    } else if b.status == BuildStatus::Success {
                        step_resolve_success(r, i as int, now)
                    } else {
                        r
                    },
                    None => step_start_build(r, i as int, now),
                }
            },
        }
    }
}

/// What one tick does to all repositories from `k` on: each gets one
/// step, in order.
pub open spec fn step_world(repos: Seq<RepoStateV>, now: u64, k: int) -> Seq<RepoStateV>
    decreases repos.len() - k,
{
    if k < 0 || k >= repos.len() {
        repos
    } else {
        step_world(repos.update(k, step_repo(repos[k], now)), now, k + 1)
    }
}

impl RepoState {
    /// Whether the repository is in cooldown at `now`.
    pub fn is_in_cooldown(&self, now: u64) -> (r: bool)
        ensures
            r == cooldown_active(self@, now),
    {
        match self.cooldown_deadline {
            Some(d) => d > now,
            None => false,
        }
    }

    /// Put the repository in cooldown for `secs` seconds from `now`.
    /// The caller is expected to schedule a trigger for when it ends.
    pub fn set_cooldown(&mut self, now: u64, secs: u64)
        requires
            secs <= 60,
        ensures
            final(self)@ == (RepoStateV {
                cooldown_deadline: Some(cooldown_after(now, secs)),
                ..old(self)@
            }),
    {
        let ms = secs * 1000;
        let deadline = if now > u64::MAX - ms {
            u64::MAX
        } else {
            now + ms
        };
        self.cooldown_deadline = Some(deadline);
    }
}

/// What a trial merge yielded.
pub enum MergeResult {
    Success(CommitSha),
    Conflict,
}

/// Why a trial merge failed.
pub enum MergeFailure {
    /// Resetting the staging branch to the named base commit failed.
    Branch(CommitSha, BranchUpdateError),
    /// The merge call failed in transport.
    Transport,
}

/// Why starting an auto build failed.
#[must_use]
pub enum AutoBuildStartError {
    /// Failed to merge the PR into the base branch.
    FailedToMerge(MergeFailure),
    /// Failed to merge the PR into the base branch due to merge conflicts.
    MergeConflicts,
    /// It was not possible to mark the PR as having merge conflicts.
    FailedToMarkAsConflicted(StoreError),
    /// Failed to force push the merge commit to the CI branch.
    FailedToPush(CommitSha, BranchUpdateError),
    /// Failed to record the build in the store.
    FailedToRecordBuild(CommitSha, StoreError),
}

/// Attempts to merge the given head SHA with base SHA via the staging
/// branch: reset the staging branch to the base, then merge the head
/// into it with the given commit message.
pub fn attempt_merge(
    client: &mut Forge,
    head_sha: &String,
    base_sha: &String,
    merge_message: &String,
) -> (r: Result<MergeResult, MergeFailure>)
    requires
        old(client)@.merge_counter < u64::MAX,
    ensures
        final(client)@ == spec_attempt_merge(old(client)@, head_sha@, base_sha@, merge_message@).0,
        ({
            let a = spec_attempt_merge(old(client)@, head_sha@, base_sha@, merge_message@).1;
            match r {
                Ok(MergeResult::Success(sha)) => a == AttemptV::Merged(sha.0@),
                Ok(MergeResult::Conflict) => a == AttemptV::Conflicted,
                Err(MergeFailure::Branch(base, e)) => base.0@ == base_sha@ && a
                    == AttemptV::BranchErr(e),
                Err(MergeFailure::Transport) => a == AttemptV::TransportErr,
            }
        }),
{
    let branch = auto_merge_branch_name();
    match client.set_branch_to_sha(&branch, base_sha, ForcePush::Yes) {
        Err(e) => {
            return Err(MergeFailure::Branch(CommitSha(clone_string(base_sha)), e));
        },
        Ok(()) => {},
    }
    match client.merge_branches(&branch, head_sha, merge_message) {
        Ok(sha) => Ok(MergeResult::Success(CommitSha(sha))),
        Err(MergeError::Conflict) => Ok(MergeResult::Conflict),
        Err(MergeError::Transport) => Err(MergeFailure::Transport),
    }
}

/// Starts a new auto build for the pull request at `pr_idx`: trial
/// merge, push to the CI branch, record the build, create the check
/// run. Comments and rollback are the caller's part.
pub fn start_auto_build(repo: &mut RepoState, pr_idx: usize, gh_idx: usize, base_sha: &String) -> (r:
    Result<CommitSha, AutoBuildStartError>)
    requires
        repo_wf(old(repo)@),
        pr_idx < old(repo)@.store.prs.len(),
        gh_idx == first_match(
            old(repo)@.forge.prs,
            pr_numbered(old(repo)@.store.prs[pr_idx as int].number),
        ),
        gh_idx < old(repo)@.forge.prs.len(),
        base_sha@ == branch_sha(
            old(repo)@.forge,
            old(repo)@.store.prs[pr_idx as int].base_branch,
        ),
    ensures
        final(repo)@ == spec_start_auto_build(old(repo)@, pr_idx as int).0,
        ({
            let out = spec_start_auto_build(old(repo)@, pr_idx as int).1;
            match r {
                Ok(sha) => out == StartOutcomeV::Started(sha.0@),
                Err(AutoBuildStartError::FailedToMerge(_)) => out == StartOutcomeV::MergeFailed,
                Err(AutoBuildStartError::MergeConflicts) => out == StartOutcomeV::Conflict,
                Err(AutoBuildStartError::FailedToMarkAsConflicted(_)) => out
                    == StartOutcomeV::ConflictMarkFailed,
                Err(AutoBuildStartError::FailedToPush(sha, e)) => out
                    == StartOutcomeV::PushFailed(sha.0@, e),
                Err(AutoBuildStartError::FailedToRecordBuild(sha, _)) => out
                    == StartOutcomeV::RecordFailed(sha.0@),
            }
        }),
{
    let pr_number = repo.store.prs[pr_idx].number;
    let head_sha = clone_string(&repo.forge.prs[gh_idx].head_sha);
    let head_label = clone_string(&repo.forge.prs[gh_idx].head_label);
    let title = clone_string(&repo.forge.prs[gh_idx].title);
    let body = clone_string(&repo.forge.prs[gh_idx].message);

    let mut message = String::from_str("Auto merge of #");
    let num_text = u64_to_string(pr_number);
    message.append(num_text.as_str());
    message.append(" - ");
    message.append(head_label.as_str());
    message.append(", r=");
    message.append(crate::comment::approver_or_unknown(&repo.store.prs[pr_idx].approver));
    message.append("\n\n");
    message.append(title.as_str());
    message.append("\n\n");
    message.append(body.as_str());
    proof {
        assert(message@ =~= merge_commit_message(
            pr_number,
            head_label@,
            old(repo)@.store.prs[pr_idx as int].approver,
            title@,
            body@,
        ));
    }

    match attempt_merge(&mut repo.forge, &head_sha, base_sha, &message) {
        Err(f) => Err(AutoBuildStartError::FailedToMerge(f)),
        Ok(MergeResult::Conflict) => {
            match repo.store.update_pr_mergeable_state(pr_idx, MergeableState::HasConflicts) {
                Err(se) => Err(AutoBuildStartError::FailedToMarkAsConflicted(se)),
                Ok(()) => Err(AutoBuildStartError::MergeConflicts),
            }
        },
        Ok(MergeResult::Success(merge_sha)) => {
            let auto_b = auto_branch_name();
            match repo.forge.set_branch_to_sha(&auto_b, &merge_sha.0, ForcePush::Yes) {
                Err(e) => {
                    return Err(AutoBuildStartError::FailedToPush(merge_sha, e));
                },
                Ok(()) => {},
            }
            match repo.store.attach_auto_build(
                pr_idx,
                auto_b,
                clone_string(&merge_sha.0),
                clone_string(base_sha),
            ) {
                Err(se) => Err(AutoBuildStartError::FailedToRecordBuild(merge_sha, se)),
                Ok(build_id) => {
                    match repo.forge.create_check_run(
                        auto_build_check_run_name_string(),
                        clone_string(&head_sha),
                        build_id,
                    ) {
                        Ok(check_run_id) => {
                            repo.store.update_build_check_run_id(pr_idx, check_run_id);
                        },
                        Err(_) => {},
                    }
                    Ok(merge_sha)
                },
            }
        },
    }
}

/// Resolve the successful build of the pull request at `pr_idx`:
/// success comment, non-force fast-forward of the base branch, and on
/// failure the matrix of recoveries.
fn resolve_success(repo: &mut RepoState, pr_idx: usize, now: u64)
    requires
        pr_idx < old(repo)@.store.prs.len(),
        old(repo)@.store.prs[pr_idx as int].auto_build matches Some(b) && b.status
            == BuildStatus::Success,
    ensures
        final(repo)@ == step_resolve_success(old(repo)@, pr_idx as int, now),
{
    let pr_number = repo.store.prs[pr_idx].number;
    let base_branch = clone_string(&repo.store.prs[pr_idx].base_branch);
    let (build_id, check_run_id, commit_sha) = match &repo.store.prs[pr_idx].auto_build {
        Some(b) => (b.id, b.check_run_id, clone_string(&b.commit_sha)),
        None => vstd::pervasive::unreached(),
    };
    let comment = auto_build_succeeded_comment(
        &repo.store.workflows,
        build_id,
        &repo.store.prs[pr_idx].approver,
        &commit_sha,
        &base_branch,
    );
    repo.forge.post_comment(pr_number, comment);
    match repo.forge.set_branch_to_sha(&base_branch, &commit_sha, ForcePush::No) {
        Ok(()) => {
            match repo.store.set_pr_status(pr_idx, PullRequestStatus::Merged) {
                Ok(()) => {},
                Err(_) => {
                    repo.set_cooldown(now, 60);
                },
            }
        },
        Err(BranchUpdateError::FastForwardConflict) => {
            repo.set_cooldown(now, 5);
        },
        Err(e) => {
            if e == BranchUpdateError::ValidationFailed {
                repo.set_cooldown(now, 10);
            }
            match check_run_id {
                Some(cid) => {
                    let _ = repo.forge.update_check_run(
                        cid,
                        CheckRunStatus::Completed,
                        Some(CheckRunConclusion::Failure),
                    );
                },
                None => {},
            }
            match repo.store.update_build_status(pr_idx, BuildStatus::Failure) {
                Err(_) => {
                    repo.set_cooldown(now, 60);
                },
                Ok(()) => {
                    let c = auto_build_push_failed_comment(e.render());
                    repo.forge.post_comment(pr_number, c);
                },
            }
        },
    }
}

/// The pending workflow run ids among (id, status) pairs.
#[verifier::loop_isolation(false)]
fn collect_pending(runs: &Vec<(u64, WorkflowRunStatus)>) -> (r: Vec<u64>)
    ensures
        r@ == pending_ids(runs@),
{
    let mut r: Vec<u64> = Vec::new();
    let mut i: usize = 0;
    while i < runs.len()
        invariant
            i <= runs.len(),
            r@ == pending_ids(runs@.take(i as int)),
        decreases runs.len() - i,
    {
        proof {
            assert(runs@.take(i as int + 1).drop_last() =~= runs@.take(i as int));
            assert(runs@.take(i as int + 1).last() == runs@[i as int]);
        }
        let status = runs[i].1;
        if status == WorkflowRunStatus::Queued || status == WorkflowRunStatus::InProgress {
            r.push(runs[i].0);
        }
        proof {
            assert(r@ =~= pending_ids(runs@.take(i as int + 1)));
        }
        i += 1;
    }
    proof {
        assert(runs@.take(runs@.len() as int) =~= runs@);
    }
    r
}

/// One tick for one repository: select the queue head and drive it
/// one step through the auto-build lifecycle.
fn tick_repo(repo: &mut RepoState, now: u64)
    requires
        repo_wf(old(repo)@),
    ensures
        final(repo)@ == step_repo(old(repo)@, now),
{
    if repo.is_in_cooldown(now) {
        return ;
    }
    if !repo.has_record {
        return ;
    }
    if !repo.merge_queue_enabled {
        return ;
    }
    let head = queue_head(&repo.store.prs, repo.min_priority);
    proof {
        vstd::std_specs::vec::axiom_spec_len(&repo.store.prs);
        lemma_queue_head_upto(
            old(repo)@.store.prs,
            old(repo)@.min_priority,
            old(repo)@.store.prs.len() as int,
        );
    }
    let pr_idx = match head {
        None => {
            return ;
        },
        Some(i) => i,
    };
    let status: Option<BuildStatus> = match &repo.store.prs[pr_idx].auto_build {
        Some(b) => Some(b.status),
        None => None,
    };
    match status {
        Some(BuildStatus::Pending) => {
            // A build is in flight: the queue blocks on it.
        },
        Some(BuildStatus::Success) => {
            resolve_success(repo, pr_idx, now);
        },
        Some(_) => {
            // The store query excludes terminal builds; assert it
            // rather than rely on it.
            proof {
                assert(false);
            }
        },
        None => {
            let pr_number = repo.store.prs[pr_idx].number;
            let gh_idx = match repo.forge.pr_index_by_number(pr_number) {
                Some(g) => g,
                None => vstd::pervasive::unreached(),
            };
            let base_branch = clone_string(&repo.store.prs[pr_idx].base_branch);
            let base_sha = repo.forge.get_branch_sha(&base_branch);
            let head_sha = clone_string(&repo.forge.prs[gh_idx].head_sha);
            match start_auto_build(repo, pr_idx, gh_idx, &base_sha) {
                Ok(merge_sha) => {
                    let c = auto_build_started_comment(&head_sha, &merge_sha.0);
                    repo.forge.post_comment(pr_number, c);
                },
                Err(AutoBuildStartError::FailedToMerge(_)) => {},
                Err(AutoBuildStartError::MergeConflicts) => {
                    let c = merge_conflict_comment(head_sha.as_str());
                    repo.forge.post_comment(pr_number, c);
                },
                Err(AutoBuildStartError::FailedToMarkAsConflicted(_)) => {
                    let c = merge_conflict_comment(head_sha.as_str());
                    repo.forge.post_comment(pr_number, c);
                },
                Err(AutoBuildStartError::FailedToPush(sha, e)) => {
                    let c = push_to_auto_branch_failed_comment(
                        &sha.0,
                        "automation/bors/auto",
                        e.render(),
                    );
                    repo.forge.post_comment(pr_number, c);
                },
                Err(AutoBuildStartError::FailedToRecordBuild(sha, _)) => {
                    // Cancel any workflows already running on the
                    // orphaned merge commit, then erase it from the CI
                    // branch.
                    let runs = repo.forge.runs_for_commit(&sha.0);
                    let pending = collect_pending(&runs);
                    repo.forge.cancel_workflows(&pending);
                    let auto_b = auto_branch_name();
                    let _ = repo.forge.set_branch_to_sha(&auto_b, &base_sha, ForcePush::Yes);
                },
            }
            proof {
                assert(final(repo)@ =~~= step_start_build(old(repo)@, pr_idx as int, now));
            }
        },
    }
}

/// One merge queue tick: walk all known repositories in order, one
/// step each.
#[verifier::loop_isolation(false)]
pub fn merge_queue_tick(repos: &mut Vec<RepoState>, now: u64)
    requires
        forall|k: int|
            0 <= k < old(repos)@.len() ==> repo_wf(#[trigger] old(repos).deep_view()[k]),
    ensures
        final(repos).deep_view() == step_world(old(repos).deep_view(), now, 0),
{
    let ghost orig = old(repos).deep_view();
    let mut k: usize = 0;
    while k < repos.len()
        invariant
            k <= repos.len(),
            repos@.len() == old(repos)@.len(),
            step_world(orig, now, 0) == step_world(repos.deep_view(), now, k as int),
            forall|j: int| k <= j < repos@.len() ==> repos.deep_view()[j] == orig[j],
        decreases repos.len() - k,
    {
        let ghost before = repos.deep_view();
        proof {
            assert(repos.deep_view()[k as int] == orig[k as int]);
            assert(repo_wf(old(repos).deep_view()[k as int]));
            assert((repos@[k as int])@ == repos.deep_view()[k as int]);
        }
        tick_repo(&mut repos[k], now);
        proof {
            assert(repos.deep_view() =~= before.update(
                k as int,
                step_repo(before[k as int], now),
            ));
        }
        k += 1;
    }
}

} // verus!
