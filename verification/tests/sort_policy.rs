//! Tests for the merge queue sort policy.

use bors::command::{Priority, RollupMode};
use bors::queue::{is_eligible, queue_head, sort_queue_prs};
use bors::store::{
    Build, BuildStatus, MergeableState, PullRequestModel, PullRequestStatus,
};

fn pr(number: u64) -> PullRequestModel {
    PullRequestModel {
        number,
        base_branch: "main".to_string(),
        approver: Some("user".to_string()),
        priority: None,
        rollup: None,
        status: PullRequestStatus::Approved,
        mergeable_state: MergeableState::Unknown,
        auto_build: None,
    }
}

fn with_build(mut p: PullRequestModel, status: BuildStatus) -> PullRequestModel {
    p.auto_build = Some(Build {
        id: 1,
        pr_number: p.number,
        branch: "automation/bors/auto".to_string(),
        commit_sha: "merge".to_string(),
        parent_sha: "main-sha1".to_string(),
        status,
        check_run_id: None,
    });
    p
}

fn with_priority(mut p: PullRequestModel, priority: Priority) -> PullRequestModel {
    p.priority = Some(priority);
    p
}

fn with_rollup(mut p: PullRequestModel, rollup: RollupMode) -> PullRequestModel {
    p.rollup = Some(rollup);
    p
}

fn sorted(prs: &Vec<PullRequestModel>) -> Vec<u64> {
    let idxs: Vec<usize> = (0..prs.len()).collect();
    sort_queue_prs(prs, &idxs)
        .into_iter()
        .map(|i| prs[i].number)
        .collect()
}

#[test]
fn build_phase_comes_first() {
    let prs = vec![
        pr(1),
        with_build(pr(2), BuildStatus::Pending),
        with_build(pr(3), BuildStatus::Success),
    ];
    assert_eq!(sorted(&prs), [3, 2, 1]);
}

#[test]
fn higher_priority_first() {
    let prs = vec![
        with_priority(pr(1), 1),
        with_priority(pr(2), 10),
        pr(3),
    ];
    assert_eq!(sorted(&prs), [2, 1, 3]);
}

#[test]
fn rollup_never_before_always() {
    let prs = vec![
        with_rollup(pr(1), RollupMode::Always),
        with_rollup(pr(2), RollupMode::Maybe),
        with_rollup(pr(3), RollupMode::Never),
        with_rollup(pr(4), RollupMode::Iffy),
    ];
    assert_eq!(sorted(&prs), [3, 4, 2, 1]);
}

#[test]
fn lower_number_breaks_ties() {
    let prs = vec![pr(9), pr(4), pr(7)];
    assert_eq!(sorted(&prs), [4, 7, 9]);
}

#[test]
fn priority_outranks_rollup() {
    let prs = vec![
        with_rollup(with_priority(pr(1), 1), RollupMode::Never),
        with_rollup(with_priority(pr(2), 5), RollupMode::Always),
    ];
    assert_eq!(sorted(&prs), [2, 1]);
}

#[test]
fn eligibility_filters() {
    assert!(is_eligible(&pr(1), 0));
    let mut closed = pr(2);
    closed.status = PullRequestStatus::Open;
    assert!(!is_eligible(&closed, 0));
    let mut conflicted = pr(3);
    conflicted.mergeable_state = MergeableState::HasConflicts;
    assert!(!is_eligible(&conflicted, 0));
    // Below the tree's priority threshold.
    assert!(!is_eligible(&with_priority(pr(4), 2), 3));
    assert!(is_eligible(&with_priority(pr(5), 3), 3));
    // A failed build keeps the pull request out of the queue.
    assert!(!is_eligible(&with_build(pr(6), BuildStatus::Failure), 0));
    assert!(is_eligible(&with_build(pr(7), BuildStatus::Pending), 0));
}

#[test]
fn queue_head_picks_sorted_first() {
    let prs = vec![
        pr(1),
        with_priority(pr(2), 3),
        with_build(pr(3), BuildStatus::Pending),
    ];
    assert_eq!(queue_head(&prs, 0), Some(2));
    let none: Vec<PullRequestModel> = vec![];
    assert_eq!(queue_head(&none, 0), None);
}
