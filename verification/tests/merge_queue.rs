//! Scenario tests for the merge queue tick engine.

use bors::command::Priority;
use bors::forge::{
    Branch, CheckRunConclusion, CheckRunStatus, Forge, ForgePullRequest, WorkflowRun,
    WorkflowRunStatus,
};
use bors::store::{
    Build, BuildStatus, MergeableState, PullRequestModel, PullRequestStatus, Store, Workflow,
};
use bors::tick::{attempt_merge, merge_queue_tick, MergeFailure, RepoState};

const AUTO_MERGE_BRANCH_NAME: &str = "automation/bors/auto-merge";
const AUTO_BRANCH_NAME: &str = "automation/bors/auto";
const AUTO_BUILD_CHECK_RUN_NAME: &str = "Bors auto build";

fn forge_pr(number: u64) -> ForgePullRequest {
    ForgePullRequest {
        number,
        head_sha: format!("pr-{number}-sha"),
        head_label: format!("user:pr-{number}"),
        title: format!("Title of PR {number}"),
        message: format!("Description of PR {number}"),
        conflicts_with_base: false,
    }
}

fn store_pr(number: u64, priority: Option<Priority>) -> PullRequestModel {
    PullRequestModel {
        number,
        base_branch: "main".to_string(),
        approver: Some("default-user".to_string()),
        priority,
        rollup: None,
        status: PullRequestStatus::Approved,
        mergeable_state: MergeableState::Unknown,
        auto_build: None,
    }
}

fn repo_with_prs(numbers: &[u64]) -> RepoState {
    RepoState {
        name: "rust-lang/borstest".to_string(),
        merge_queue_enabled: true,
        has_record: true,
        min_priority: 0,
        cooldown_deadline: None,
        forge: Forge {
            branches: vec![Branch {
                name: "main".to_string(),
                sha: "main-sha1".to_string(),
                history: vec!["main-sha1".to_string()],
            }],
            prs: numbers.iter().map(|n| forge_pr(*n)).collect(),
            check_runs: vec![],
            comments: vec![],
            workflow_runs: vec![],
            merge_parents: vec![],
            next_check_run_id: 1,
            merge_counter: 0,
            push_failures: vec![],
            validation_failures: vec![],
            check_run_failure: false,
            merge_failure: false,
        },
        store: Store {
            prs: numbers.iter().map(|n| store_pr(*n, None)).collect(),
            workflows: vec![],
            next_build_id: 1,
            attach_failure: false,
            status_failure: false,
            mergeable_failure: false,
            build_status_failure: false,
        },
    }
}

fn tick(repo: &mut RepoState) {
    let mut repos = vec![std::mem::replace(repo, repo_with_prs(&[]))];
    merge_queue_tick(&mut repos, 0);
    *repo = repos.pop().unwrap();
}

fn tick_at(repo: &mut RepoState, now: u64) {
    let mut repos = vec![std::mem::replace(repo, repo_with_prs(&[]))];
    merge_queue_tick(&mut repos, now);
    *repo = repos.pop().unwrap();
}

/// Simulate the CI webhook ingester reporting a successful run for the
/// pending build of the pull request `number`.
fn workflow_full_success(repo: &mut RepoState, number: u64) {
    let pr = repo
        .store
        .prs
        .iter_mut()
        .find(|p| p.number == number)
        .expect("pull request");
    let build: &mut Build = pr.auto_build.as_mut().expect("pending build");
    assert_eq!(build.status, BuildStatus::Pending);
    build.status = BuildStatus::Success;
    let run_id = repo.store.workflows.len() as u64 + 1;
    repo.store.workflows.push(Workflow {
        build_id: build.id,
        name: "Workflow1".to_string(),
        url: format!("https://github.com/rust-lang/borstest/actions/runs/{run_id}"),
    });
}

fn last_comment(repo: &RepoState) -> (u64, &str) {
    let c = repo.forge.comments.last().expect("a comment");
    (c.pr_number, c.text.as_str())
}

fn branch_history<'a>(repo: &'a RepoState, name: &str) -> Vec<&'a str> {
    let b = repo
        .forge
        .branches
        .iter()
        .find(|b| b.name == name)
        .expect("branch");
    b.history.iter().map(|s| s.as_str()).collect()
}

#[test]
fn auto_build_started_comment() {
    let mut repo = repo_with_prs(&[1]);
    tick(&mut repo);
    assert_eq!(
        last_comment(&repo),
        (1, ":hourglass: Testing commit pr-1-sha with merge merge-0-pr-1...")
    );
}

#[test]
fn auto_workflow_check_run_created() {
    let mut repo = repo_with_prs(&[1]);
    tick(&mut repo);
    let run = repo.forge.check_runs.last().expect("check run");
    assert_eq!(run.name, AUTO_BUILD_CHECK_RUN_NAME);
    assert_eq!(run.head_sha, "pr-1-sha");
    assert_eq!(run.status, CheckRunStatus::InProgress);
    assert_eq!(run.conclusion, None);
    let build = repo.store.prs[0].auto_build.as_ref().expect("build");
    assert_eq!(run.external_id, build.id);
    assert_eq!(build.check_run_id, Some(run.id));
}

#[test]
fn auto_build_insert_into_db() {
    let mut repo = repo_with_prs(&[1]);
    tick(&mut repo);
    let build = repo.store.prs[0].auto_build.as_ref().expect("build");
    assert_eq!(build.branch, AUTO_BRANCH_NAME);
    assert_eq!(build.commit_sha, "merge-0-pr-1");
    assert_eq!(build.parent_sha, "main-sha1");
    assert_eq!(build.status, BuildStatus::Pending);
}

#[test]
fn auto_build_success_comment() {
    let mut repo = repo_with_prs(&[1]);
    tick(&mut repo);
    workflow_full_success(&mut repo, 1);
    tick(&mut repo);
    assert_eq!(
        last_comment(&repo),
        (
            1,
            ":sunny: Test successful - [Workflow1](https://github.com/rust-lang/borstest/actions/runs/1)\nApproved by: `default-user`\nPushing merge-0-pr-1 to `main`..."
        )
    );
}

#[test]
fn auto_build_succeeds_and_merges_in_db() {
    let mut repo = repo_with_prs(&[1]);
    tick(&mut repo);
    workflow_full_success(&mut repo, 1);
    tick(&mut repo);
    let pr = &repo.store.prs[0];
    assert_eq!(pr.status, PullRequestStatus::Merged);
    assert_eq!(pr.auto_build.as_ref().unwrap().status, BuildStatus::Success);
}

fn reject_pushes(repo: &mut RepoState) {
    repo.forge.push_failures = vec![
        "main".to_string(),
        AUTO_BRANCH_NAME.to_string(),
        AUTO_MERGE_BRANCH_NAME.to_string(),
    ];
}

#[test]
fn auto_build_push_fail_comment() {
    let mut repo = repo_with_prs(&[1]);
    tick(&mut repo);
    workflow_full_success(&mut repo, 1);
    reject_pushes(&mut repo);
    tick(&mut repo);
    assert_eq!(
        last_comment(&repo),
        (1, ":eyes: Test was successful, but fast-forwarding failed: IO error")
    );
}

#[test]
fn auto_build_push_fail_updates_check_run() {
    let mut repo = repo_with_prs(&[1]);
    tick(&mut repo);
    workflow_full_success(&mut repo, 1);
    reject_pushes(&mut repo);
    tick(&mut repo);
    let run = repo.forge.check_runs.last().expect("check run");
    assert_eq!(run.name, AUTO_BUILD_CHECK_RUN_NAME);
    assert_eq!(run.head_sha, "pr-1-sha");
    assert_eq!(run.status, CheckRunStatus::Completed);
    assert_eq!(run.conclusion, Some(CheckRunConclusion::Failure));
}

#[test]
fn auto_build_push_fail_in_db() {
    let mut repo = repo_with_prs(&[1]);
    tick(&mut repo);
    workflow_full_success(&mut repo, 1);
    reject_pushes(&mut repo);
    tick(&mut repo);
    assert_eq!(
        repo.store.prs[0].auto_build.as_ref().unwrap().status,
        BuildStatus::Failure
    );
}

#[test]
fn auto_build_branch_history() {
    let mut repo = repo_with_prs(&[1]);
    tick(&mut repo);
    workflow_full_success(&mut repo, 1);
    tick(&mut repo);
    assert_eq!(branch_history(&repo, "main"), ["main-sha1", "merge-0-pr-1"]);
    assert_eq!(
        branch_history(&repo, AUTO_MERGE_BRANCH_NAME),
        ["main-sha1", "merge-0-pr-1"]
    );
    assert_eq!(branch_history(&repo, AUTO_BRANCH_NAME), ["merge-0-pr-1"]);
}

#[test]
fn merge_queue_sequential_order() {
    let mut repo = repo_with_prs(&[1, 2, 3]);
    for number in [1u64, 2, 3] {
        tick(&mut repo);
        workflow_full_success(&mut repo, number);
        tick(&mut repo);
    }
    assert_eq!(
        branch_history(&repo, "main"),
        ["main-sha1", "merge-0-pr-1", "merge-1-pr-2", "merge-2-pr-3"]
    );
}

#[test]
fn merge_queue_priority_order() {
    // The first pull request is approved and in flight before the
    // high-priority one arrives.
    let mut repo = repo_with_prs(&[1]);
    tick(&mut repo);
    repo.forge.prs.push(forge_pr(2));
    repo.forge.prs.push(forge_pr(3));
    repo.store.prs.push(store_pr(2, None));
    repo.store.prs.push(store_pr(3, Some(3)));
    for number in [1u64, 3, 2] {
        workflow_full_success(&mut repo, number);
        tick(&mut repo);
        tick(&mut repo);
    }
    assert_eq!(
        branch_history(&repo, "main"),
        ["main-sha1", "merge-0-pr-1", "merge-1-pr-3", "merge-2-pr-2"]
    );
}

#[test]
fn merge_conflict_marks_pr_and_creates_no_build() {
    let mut repo = repo_with_prs(&[1]);
    repo.forge.prs[0].conflicts_with_base = true;
    tick(&mut repo);
    assert_eq!(repo.store.prs[0].mergeable_state, MergeableState::HasConflicts);
    assert!(repo.store.prs[0].auto_build.is_none());
    assert_eq!(
        last_comment(&repo),
        (
            1,
            ":lock: Merge conflict: commit pr-1-sha does not merge cleanly into the base branch."
        )
    );
}

#[test]
fn single_flight_blocks_second_pr() {
    let mut repo = repo_with_prs(&[1, 2]);
    tick(&mut repo);
    let comments = repo.forge.comments.len();
    let pending = |repo: &RepoState| {
        repo.store
            .prs
            .iter()
            .filter(|p| {
                matches!(&p.auto_build, Some(b) if b.status == BuildStatus::Pending)
            })
            .count()
    };
    assert_eq!(pending(&repo), 1);
    tick(&mut repo);
    assert_eq!(repo.forge.comments.len(), comments);
    assert_eq!(pending(&repo), 1);
    assert!(repo.store.prs[1].auto_build.is_none());
}

#[test]
fn record_failure_leaves_no_orphan_commit() {
    let mut repo = repo_with_prs(&[1]);
    repo.store.attach_failure = true;
    // A workflow is already running on the soon-to-be-orphaned merge
    // commit; the rollback cancels it.
    tick(&mut repo);
    assert!(repo.store.prs[0].auto_build.is_none());
    assert!(repo.forge.comments.is_empty());
    let auto = repo
        .forge
        .branches
        .iter()
        .find(|b| b.name == AUTO_BRANCH_NAME)
        .expect("CI branch");
    let main = repo.forge.branches.iter().find(|b| b.name == "main").unwrap();
    assert_eq!(auto.sha, main.sha);
}

#[test]
fn record_failure_cancels_orphan_workflows() {
    let mut repo = repo_with_prs(&[1]);
    repo.store.attach_failure = true;
    repo.forge.workflow_runs.push(WorkflowRun {
        id: 7,
        head_sha: "merge-0-pr-1".to_string(),
        status: WorkflowRunStatus::InProgress,
    });
    tick(&mut repo);
    assert_eq!(repo.forge.workflow_runs[0].status, WorkflowRunStatus::Cancelled);
}

#[test]
fn merge_transport_failure_changes_nothing_visible() {
    let mut repo = repo_with_prs(&[1]);
    repo.forge.merge_failure = true;
    tick(&mut repo);
    assert!(repo.forge.comments.is_empty());
    assert!(repo.store.prs[0].auto_build.is_none());
}

#[test]
fn push_to_auto_branch_failure_comment() {
    let mut repo = repo_with_prs(&[1]);
    repo.forge.push_failures = vec![AUTO_BRANCH_NAME.to_string()];
    tick(&mut repo);
    assert!(repo.store.prs[0].auto_build.is_none());
    assert_eq!(
        last_comment(&repo),
        (
            1,
            ":warning: Could not push merge commit merge-0-pr-1 to `automation/bors/auto`: IO error"
        )
    );
}

#[test]
fn mark_conflicted_failure_still_comments() {
    let mut repo = repo_with_prs(&[1]);
    repo.forge.prs[0].conflicts_with_base = true;
    repo.store.mergeable_failure = true;
    tick(&mut repo);
    assert_eq!(repo.store.prs[0].mergeable_state, MergeableState::Unknown);
    assert_eq!(
        last_comment(&repo),
        (
            1,
            ":lock: Merge conflict: commit pr-1-sha does not merge cleanly into the base branch."
        )
    );
}

#[test]
fn validation_failure_sets_cooldown_and_fails_build() {
    let mut repo = repo_with_prs(&[1]);
    tick_at(&mut repo, 1_000);
    workflow_full_success(&mut repo, 1);
    repo.forge.validation_failures = vec!["main".to_string()];
    tick_at(&mut repo, 2_000);
    assert_eq!(repo.cooldown_deadline, Some(12_000));
    assert_eq!(
        repo.store.prs[0].auto_build.as_ref().unwrap().status,
        BuildStatus::Failure
    );
    let run = repo.forge.check_runs.last().unwrap();
    assert_eq!(run.status, CheckRunStatus::Completed);
    assert_eq!(run.conclusion, Some(CheckRunConclusion::Failure));
    assert_eq!(
        last_comment(&repo),
        (1, ":eyes: Test was successful, but fast-forwarding failed: validation failed")
    );
}

#[test]
fn cooldown_skips_repository() {
    let mut repo = repo_with_prs(&[1]);
    repo.cooldown_deadline = Some(10_000);
    tick_at(&mut repo, 5_000);
    assert!(repo.forge.comments.is_empty());
    assert!(repo.store.prs[0].auto_build.is_none());
    // After the deadline the queue runs again.
    tick_at(&mut repo, 10_000);
    assert_eq!(repo.forge.comments.len(), 1);
}

#[test]
fn disabled_merge_queue_is_skipped() {
    let mut repo = repo_with_prs(&[1]);
    repo.merge_queue_enabled = false;
    tick(&mut repo);
    assert!(repo.forge.comments.is_empty());
    assert!(repo.store.prs[0].auto_build.is_none());
}

#[test]
fn store_failure_after_push_sets_long_cooldown() {
    let mut repo = repo_with_prs(&[1]);
    tick(&mut repo);
    workflow_full_success(&mut repo, 1);
    repo.store.status_failure = true;
    tick_at(&mut repo, 1_000);
    assert_eq!(repo.cooldown_deadline, Some(61_000));
    // The fast-forward went through; the next tick, after the
    // cooldown, re-converges by marking the pull request merged.
    assert_eq!(repo.store.prs[0].status, PullRequestStatus::Approved);
    repo.store.status_failure = false;
    tick_at(&mut repo, 61_000);
    assert_eq!(repo.store.prs[0].status, PullRequestStatus::Merged);
}

#[test]
fn empty_queue_does_not_block_other_repositories() {
    let mut idle = repo_with_prs(&[]);
    idle.name = "rust-lang/idle".to_string();
    let busy = repo_with_prs(&[1]);
    let mut repos = vec![idle, busy];
    merge_queue_tick(&mut repos, 0);
    assert!(repos[0].forge.comments.is_empty());
    assert!(repos[1].store.prs[0].auto_build.is_some());
    assert_eq!(
        repos[1].forge.comments.last().unwrap().text,
        ":hourglass: Testing commit pr-1-sha with merge merge-0-pr-1..."
    );
}

#[test]
fn merge_commit_message_recorded() {
    let mut repo = repo_with_prs(&[1]);
    tick(&mut repo);
    let link = repo.forge.merge_parents.last().expect("merge commit");
    assert_eq!(link.sha, "merge-0-pr-1");
    assert_eq!(link.parent, "main-sha1");
    assert_eq!(
        link.message,
        "Auto merge of #1 - user:pr-1, r=default-user\n\nTitle of PR 1\n\nDescription of PR 1"
    );
}

#[test]
fn attempt_merge_branch_error_names_base() {
    let mut repo = repo_with_prs(&[1]);
    repo.forge.push_failures = vec![AUTO_MERGE_BRANCH_NAME.to_string()];
    let head = "pr-1-sha".to_string();
    let base = "main-sha1".to_string();
    let message = "a message".to_string();
    match attempt_merge(&mut repo.forge, &head, &base, &message) {
        Err(MergeFailure::Branch(sha, bors::forge::BranchUpdateError::Io)) => {
            assert_eq!(sha.0, "main-sha1");
        }
        _ => panic!("expected a branch error naming the base commit"),
    }
    // The merge itself was never attempted.
    assert!(repo.forge.merge_parents.is_empty());
    assert_eq!(repo.forge.merge_counter, 0);
}
