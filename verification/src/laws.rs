//! Invariants of the tick engine, proved over `step_repo`.

use vstd::prelude::*;
use crate::command::Priority;
use crate::forge::{
    branch_named, branch_sha, first_match, has_branch, lemma_first_match, lemma_first_match_push,
    lemma_first_match_same, pr_numbered, pr_with_head, spec_branch_idx, spec_merge_branches,
    spec_set_branch, BranchUpdateError, ForcePush, ForgeV,
};
use crate::queue::{
    build_phase_rank, eligible, lemma_queue_head_upto, lemma_queue_leq_total, queue_head_upto,
    queue_leq, spec_queue_head,
};
use crate::store::{BuildStatus, PullRequestV, StoreV};
use crate::tick::{
    auto_branch, auto_merge_branch, merge_commit_message, repo_wf, skip_repo,
    spec_start_auto_build, step_repo, step_world, RepoStateV, StartOutcomeV,
};

verus! {

/// Whether a pull request has a pending auto build.
pub open spec fn pr_pending(pr: PullRequestV) -> bool {
    match pr.auto_build {
        Some(b) => b.status == BuildStatus::Pending,
        None => false,
    }
}

/// Single-flight: at most one pull request of the store has a pending
/// build.
pub open spec fn single_flight(s: StoreV) -> bool {
    forall|i: int, j: int|
        0 <= i < j < s.prs.len() ==> !(pr_pending(#[trigger] s.prs[i]) && pr_pending(
            #[trigger] s.prs[j],
        ))
}

/// If one pull request is strictly first among the eligible ones, it
/// is the queue head.
pub proof fn lemma_queue_head_unique(prs: Seq<PullRequestV>, min_priority: Priority, i: int, n: int)
    requires
        0 <= i < n <= prs.len(),
        n <= usize::MAX,
        eligible(prs[i], min_priority),
        forall|j: int|
            0 <= j < prs.len() && j != i && eligible(#[trigger] prs[j], min_priority)
                ==> !queue_leq(prs[j], prs[i]),
    ensures
        queue_head_upto(prs, min_priority, n) == Some(i as usize),
    decreases n,
{
    if n == i + 1 {
        lemma_queue_head_upto(prs, min_priority, i);
        match queue_head_upto(prs, min_priority, i) {
            Some(m) => {
                assert(!queue_leq(prs[m as int], prs[i]));
            },
            None => {},
        }
    } else {
        lemma_queue_head_unique(prs, min_priority, i, n - 1);
        if eligible(prs[n - 1], min_priority) {
            lemma_queue_leq_total(prs[i], prs[n - 1]);
        }
    }
}

/// Single-flight is preserved by one tick step, as long as every
/// pull request with a pending build is visible to the queue (not
/// pushed below the tree's priority threshold, and not marked
/// conflicted while its build runs).
pub proof fn lemma_step_single_flight(r: RepoStateV, now: u64)
    requires
        single_flight(r.store),
        r.store.prs.len() <= usize::MAX,
        forall|j: int|
            0 <= j < r.store.prs.len() && pr_pending(#[trigger] r.store.prs[j]) ==> eligible(
                r.store.prs[j],
                r.min_priority,
            ),
    ensures
        single_flight(step_repo(r, now).store),
{
    let s2 = step_repo(r, now).store;
    if skip_repo(r, now) {
    } else {
        lemma_queue_head_upto(r.store.prs, r.min_priority, r.store.prs.len() as int);
        match spec_queue_head(r.store.prs, r.min_priority) {
            None => {},
            Some(i) => {
                let pr = r.store.prs[i as int];
                match pr.auto_build {
                    Some(b) => {
                        // Resolving a successful build never creates a
                        // pending one.
                        assert forall|a: int, c: int|
                            0 <= a < c < s2.prs.len() implies !(pr_pending(#[trigger] s2.prs[a])
                            && pr_pending(#[trigger] s2.prs[c])) by {
                            if a != i as int {
                                assert(s2.prs[a] == r.store.prs[a]);
                            }
                            if c != i as int {
                                assert(s2.prs[c] == r.store.prs[c]);
                            }
                        }
                    },
                    None => {
                        // Starting a build: no pull request has a
                        // pending build beforehand, since it would be
                        // eligible and sorted before one without a
                        // build.
                        assert forall|j: int|
                            0 <= j < r.store.prs.len() implies !pr_pending(
                            #[trigger] r.store.prs[j],
                        ) by {
                            if pr_pending(r.store.prs[j]) {
                                assert(eligible(r.store.prs[j], r.min_priority));
                                assert(queue_leq(pr, r.store.prs[j]));
                                assert(build_phase_rank(pr) == 2);
                                assert(build_phase_rank(r.store.prs[j]) == 1);
                            }
                        }
                        assert forall|a: int, c: int|
                            0 <= a < c < s2.prs.len() implies !(pr_pending(#[trigger] s2.prs[a])
                            && pr_pending(#[trigger] s2.prs[c])) by {
                            if a != i as int {
                                assert(s2.prs[a] == r.store.prs[a]);
                            }
                            if c != i as int {
                                assert(s2.prs[c] == r.store.prs[c]);
                            }
                        }
                    },
                }
            },
        }
    }
}

/// A branch update leaves every other branch as it was.
pub proof fn lemma_set_branch_other(
    f: ForgeV,
    name: Seq<char>,
    sha: Seq<char>,
    force: ForcePush,
    other: Seq<char>,
)
    requires
        other != name,
    ensures
        has_branch(spec_set_branch(f, name, sha, force).0, other) == has_branch(f, other),
        has_branch(f, other) ==> branch_sha(spec_set_branch(f, name, sha, force).0, other)
            == branch_sha(f, other),
{
    let f2 = spec_set_branch(f, name, sha, force).0;
    let p = branch_named(other);
    lemma_first_match(f.branches, p);
    if f.validation_failures.contains(name) || f.push_failures.contains(name) {
    } else {
        let i = spec_branch_idx(f, name);
        lemma_first_match(f.branches, branch_named(name));
        if i < 0 {
            lemma_first_match_push(f.branches, f2.branches.last(), p);
            assert(f2.branches =~= f.branches.push(f2.branches.last()));
            assert(!p(f2.branches.last()));
        } else if f.branches[i].sha == sha {
        } else if force == ForcePush::No && !crate::forge::fast_forward_ok(
            f,
            f.branches[i].sha,
            sha,
        ) {
        } else {
            assert(f.branches[i].name == name);
            assert(!p(f.branches[i]));
            assert(forall|j: int|
                0 <= j < f.branches.len() ==> p(#[trigger] f.branches[j]) == p(
                    #[trigger] f2.branches[j],
                ));
            lemma_first_match_same(f.branches, f2.branches, p);
            lemma_first_match(f.branches, p);
            if first_match(f.branches, p) >= 0 {
                assert(first_match(f.branches, p) != i);
            }
        }
    }
}

/// A branch update that reports success has set the branch to the
/// commit, and the failure lists do not name the branch.
pub proof fn lemma_set_branch_self(f: ForgeV, name: Seq<char>, sha: Seq<char>, force: ForcePush)
    requires
        spec_set_branch(f, name, sha, force).1 == Ok::<(), BranchUpdateError>(()),
    ensures
        !f.validation_failures.contains(name),
        !f.push_failures.contains(name),
        has_branch(spec_set_branch(f, name, sha, force).0, name),
        branch_sha(spec_set_branch(f, name, sha, force).0, name) == sha,
{
    let f2 = spec_set_branch(f, name, sha, force).0;
    let p = branch_named(name);
    let i = spec_branch_idx(f, name);
    lemma_first_match(f.branches, p);
    if i < 0 {
        lemma_first_match_push(f.branches, f2.branches.last(), p);
        assert(f2.branches =~= f.branches.push(f2.branches.last()));
        assert(p(f2.branches.last()));
        assert(spec_branch_idx(f2, name) == f.branches.len());
    } else if f.branches[i].sha == sha {
    } else {
        assert(forall|j: int|
            0 <= j < f.branches.len() ==> p(#[trigger] f.branches[j]) == p(
                #[trigger] f2.branches[j],
            ));
        lemma_first_match_same(f.branches, f2.branches, p);
    }
}

/// A merge on one branch leaves every other branch as it was.
pub proof fn lemma_merge_other(
    f: ForgeV,
    branch: Seq<char>,
    head: Seq<char>,
    message: Seq<char>,
    other: Seq<char>,
)
    requires
        other != branch,
    ensures
        has_branch(spec_merge_branches(f, branch, head, message).0, other) == has_branch(f, other),
        has_branch(f, other) ==> branch_sha(spec_merge_branches(f, branch, head, message).0, other)
            == branch_sha(f, other),
{
    let f2 = spec_merge_branches(f, branch, head, message).0;
    let p = branch_named(other);
    if f.merge_failure {
    } else {
        let bi = spec_branch_idx(f, branch);
        let pi = first_match(f.prs, pr_with_head(head));
        lemma_first_match(f.branches, branch_named(branch));
        if bi < 0 || pi < 0 {
        } else if f.prs[pi].conflicts_with_base {
        } else {
            assert(f.branches[bi].name == branch);
            assert(!p(f.branches[bi]));
            assert(forall|j: int|
                0 <= j < f.branches.len() ==> p(#[trigger] f.branches[j]) == p(
                    #[trigger] f2.branches[j],
                ));
            lemma_first_match_same(f.branches, f2.branches, p);
            lemma_first_match(f.branches, p);
            if first_match(f.branches, p) >= 0 {
                assert(first_match(f.branches, p) != bi);
            }
        }
    }
}

/// No orphans: when recording the build fails after the merge commit
/// was pushed, the tick erases it, and the CI branch head ends the
/// tick equal to the base branch head.
pub proof fn lemma_step_no_orphans(r: RepoStateV, now: u64, i: usize)
    requires
        repo_wf(r),
        r.store.prs.len() <= usize::MAX,
        !skip_repo(r, now),
        spec_queue_head(r.store.prs, r.min_priority) == Some(i),
        r.store.prs[i as int].auto_build is None,
        spec_start_auto_build(r, i as int).1 is RecordFailed,
        r.store.prs[i as int].base_branch != auto_branch(),
        r.store.prs[i as int].base_branch != auto_merge_branch(),
    ensures
        ({
            let f5 = step_repo(r, now).forge;
            let base = r.store.prs[i as int].base_branch;
            &&& has_branch(f5, auto_branch())
            &&& has_branch(f5, base)
            &&& branch_sha(f5, auto_branch()) == branch_sha(f5, base)
            &&& branch_sha(f5, base) == branch_sha(r.forge, base)
        }),
{
    lemma_queue_head_upto(r.store.prs, r.min_priority, r.store.prs.len() as int);
    let pr = r.store.prs[i as int];
    let base = pr.base_branch;
    let base_sha = branch_sha(r.forge, base);
    let gi = first_match(r.forge.prs, pr_numbered(pr.number));
    let gh = r.forge.prs[gi];
    let msg = merge_commit_message(pr.number, gh.head_label, pr.approver, gh.title, gh.message);

    // The record failure means: the staging reset succeeded, the merge
    // succeeded, and the push to the CI branch succeeded.
    let (f1, res1) = spec_set_branch(r.forge, auto_merge_branch(), base_sha, ForcePush::Yes);
    assert(res1 is Ok);
    let (f2, res2) = spec_merge_branches(f1, auto_merge_branch(), gh.head_sha, msg);
    let merge_sha = res2.unwrap();
    let (f3, res3) = spec_set_branch(f2, auto_branch(), merge_sha, ForcePush::Yes);
    assert(res3 is Ok);

    // The base branch is untouched up to the rollback.
    lemma_set_branch_other(r.forge, auto_merge_branch(), base_sha, ForcePush::Yes, base);
    lemma_merge_other(f1, auto_merge_branch(), gh.head_sha, msg, base);
    lemma_set_branch_other(f2, auto_branch(), merge_sha, ForcePush::Yes, base);
    assert(has_branch(f3, base) && branch_sha(f3, base) == base_sha);

    // The push to the CI branch succeeded, so the failure lists do not
    // name it, and the rollback push succeeds too.
    lemma_set_branch_self(f2, auto_branch(), merge_sha, ForcePush::Yes);
    let r2 = step_repo(r, now);
    let f4 = crate::forge::spec_cancel_workflows(
        f3,
        crate::tick::pending_ids(crate::forge::spec_runs_for_commit(f3.workflow_runs, merge_sha)),
    );
    assert(f4.branches == f3.branches);
    assert(f4.validation_failures == f3.validation_failures);
    assert(f4.push_failures == f3.push_failures);
    let (f5, res5) = spec_set_branch(f4, auto_branch(), base_sha, ForcePush::Yes);
    assert(res5 is Ok);
    lemma_set_branch_self(f4, auto_branch(), base_sha, ForcePush::Yes);
    lemma_set_branch_other(f4, auto_branch(), base_sha, ForcePush::Yes, base);
    assert(r2.forge == f5);
    assert(has_branch(f5, auto_branch()));
    assert(branch_sha(f5, auto_branch()) == base_sha);
    assert(has_branch(f5, base) && branch_sha(f5, base) == base_sha);
}

/// A repository whose next tick cannot be resolving injected
/// failures: no forge or store operation is set to fail, no build has
/// already succeeded, and every head merges cleanly.
pub open spec fn quiescent(r: RepoStateV) -> bool {
    &&& repo_wf(r)
    &&& r.store.prs.len() <= usize::MAX
    &&& !r.store.attach_failure
    &&& !r.store.status_failure
    &&& !r.store.mergeable_failure
    &&& !r.store.build_status_failure
    &&& !r.forge.check_run_failure
    &&& !r.forge.merge_failure
    &&& r.forge.push_failures.len() == 0
    &&& r.forge.validation_failures.len() == 0
    &&& forall|j: int|
        0 <= j < r.store.prs.len() ==> !((#[trigger] r.store.prs[j]).auto_build matches Some(b)
            && b.status == BuildStatus::Success)
    &&& forall|j: int|
        0 <= j < r.forge.prs.len() ==> !(#[trigger] r.forge.prs[j]).conflicts_with_base
}

/// Idempotency: with no external events in between, a second tick on
/// the heels of a first changes nothing: the state after two ticks is
/// the state after one.
pub proof fn lemma_step_idempotent(r: RepoStateV, now: u64)
    requires
        quiescent(r),
    ensures
        step_repo(step_repo(r, now), now) == step_repo(r, now),
{
    let r1 = step_repo(r, now);
    if skip_repo(r, now) {
    } else {
        lemma_queue_head_upto(r.store.prs, r.min_priority, r.store.prs.len() as int);
        match spec_queue_head(r.store.prs, r.min_priority) {
            None => {},
            Some(i) => {
                let pr = r.store.prs[i as int];
                match pr.auto_build {
                    Some(b) => {
                        assert(eligible(pr, r.min_priority));
                        assert(b.status == BuildStatus::Pending);
                    },
                    None => {
                        let gi = first_match(r.forge.prs, pr_numbered(pr.number));
                        lemma_first_match(r.forge.prs, pr_numbered(pr.number));
                        let gh = r.forge.prs[gi];
                        let base_sha = branch_sha(r.forge, pr.base_branch);
                        let (f1, res1) = spec_set_branch(
                            r.forge,
                            auto_merge_branch(),
                            base_sha,
                            ForcePush::Yes,
                        );
                        assert(res1 is Ok);
                        lemma_set_branch_self(r.forge, auto_merge_branch(), base_sha, ForcePush::Yes);
                        assert(f1.prs == r.forge.prs);
                        assert(pr_with_head(gh.head_sha)(f1.prs[gi]));
                        lemma_first_match(f1.prs, pr_with_head(gh.head_sha));
                        let pi = first_match(f1.prs, pr_with_head(gh.head_sha));
                        assert(pi >= 0);
                        assert(!f1.prs[pi].conflicts_with_base);
                        let msg = merge_commit_message(
                            pr.number,
                            gh.head_label,
                            pr.approver,
                            gh.title,
                            gh.message,
                        );
                        let (f2, res2) = spec_merge_branches(
                            f1,
                            auto_merge_branch(),
                            gh.head_sha,
                            msg,
                        );
                        assert(res2 is Ok);
                        let merge_sha = res2->Ok_0;
                        let (f3, res3) = spec_set_branch(f2, auto_branch(), merge_sha, ForcePush::Yes);
                        assert(res3 is Ok);
                        assert(spec_start_auto_build(r, i as int).1 == StartOutcomeV::Started(
                            merge_sha,
                        ));
                        let prs1 = r1.store.prs;
                        assert(prs1.len() == r.store.prs.len());
                        assert(forall|j: int|
                            0 <= j < prs1.len() && j != i ==> #[trigger] prs1[j]
                                == r.store.prs[j]);
                        assert(prs1[i as int].auto_build matches Some(nb) && nb.status
                            == BuildStatus::Pending);
                        assert(prs1[i as int].status == pr.status);
                        assert(prs1[i as int].mergeable_state == pr.mergeable_state);
                        assert(prs1[i as int].priority == pr.priority);
                        assert(eligible(prs1[i as int], r.min_priority));
                        assert(build_phase_rank(prs1[i as int]) == 1);

                        // No other pull request can sort before the
                        // freshly started one.
                        assert forall|j: int|
                            0 <= j < prs1.len() && j != i && eligible(
                                #[trigger] prs1[j],
                                r.min_priority,
                            ) implies !queue_leq(prs1[j], prs1[i as int]) by {
                            assert(prs1[j] == r.store.prs[j]);
                            match r.store.prs[j].auto_build {
                                None => {
                                    assert(build_phase_rank(r.store.prs[j]) == 2);
                                },
                                Some(bj) => {
                                    assert(bj.status == BuildStatus::Pending);
                                    assert(queue_leq(pr, r.store.prs[j]));
                                    assert(build_phase_rank(pr) == 2);
                                    assert(build_phase_rank(r.store.prs[j]) == 1);
                                },
                            }
                        }
                        assert(r1.min_priority == r.min_priority);
                        assert(!skip_repo(r1, now));
                        lemma_queue_head_unique(
                            prs1,
                            r.min_priority,
                            i as int,
                            prs1.len() as int,
                        );
                        assert(spec_queue_head(r1.store.prs, r1.min_priority) == Some(i));
                        assert(step_repo(r1, now) == r1);
                    },
                }
            },
        }
    }
}

/// Order preservation, per tick: the only branch a tick can advance,
/// besides the bot's own staging and CI branches, is the base branch
/// of the pull request the sort policy picked, and it advances it to
/// that pull request's successful build commit. Merge commits
/// therefore reach a base branch in the order the policy picks queue
/// heads.
pub proof fn lemma_step_merges_queue_head(r: RepoStateV, now: u64, name: Seq<char>)
    requires
        r.store.prs.len() <= usize::MAX,
        name != auto_branch(),
        name != auto_merge_branch(),
        has_branch(r.forge, name),
    ensures
        ({
            let f9 = step_repo(r, now).forge;
            branch_sha(f9, name) != branch_sha(r.forge, name) ==> {
                &&& spec_queue_head(r.store.prs, r.min_priority) matches Some(i)
                &&& r.store.prs[spec_queue_head(r.store.prs, r.min_priority).unwrap() as int].auto_build
                    matches Some(b) && b.status == BuildStatus::Success
                &&& r.store.prs[spec_queue_head(r.store.prs, r.min_priority).unwrap() as int].base_branch
                    == name
                &&& branch_sha(f9, name) == r.store.prs[spec_queue_head(
                    r.store.prs,
                    r.min_priority,
                ).unwrap() as int].auto_build.unwrap().commit_sha
            }
        }),
{
    if skip_repo(r, now) {
    } else {
        match spec_queue_head(r.store.prs, r.min_priority) {
            None => {},
            Some(i) => {
                let pr = r.store.prs[i as int];
                match pr.auto_build {
                    Some(b) => {
                        if b.status == BuildStatus::Success {
                            let f1 = crate::forge::spec_post_comment(
                                r.forge,
                                pr.number,
                                crate::comment::auto_build_succeeded_text(
                                    r.store.workflows,
                                    b.id,
                                    pr.approver,
                                    b.commit_sha,
                                    pr.base_branch,
                                ),
                            );
                            assert(f1.branches == r.forge.branches);
                            let (f2, res) = spec_set_branch(
                                f1,
                                pr.base_branch,
                                b.commit_sha,
                                ForcePush::No,
                            );
                            if pr.base_branch == name {
                                match res {
                                    Ok(()) => {
                                        lemma_set_branch_self(
                                            f1,
                                            pr.base_branch,
                                            b.commit_sha,
                                            ForcePush::No,
                                        );
                                    },
                                    Err(_) => {
                                        assert(f2 == f1);
                                    },
                                }
                            } else {
                                lemma_set_branch_other(
                                    f1,
                                    pr.base_branch,
                                    b.commit_sha,
                                    ForcePush::No,
                                    name,
                                );
                            }
                        }
                    },
                    None => {
                        let gi = first_match(r.forge.prs, pr_numbered(pr.number));
                        let gh = r.forge.prs[gi];
                        let base_sha = branch_sha(r.forge, pr.base_branch);
                        let (f1, res1) = spec_set_branch(
                            r.forge,
                            auto_merge_branch(),
                            base_sha,
                            ForcePush::Yes,
                        );
                        lemma_set_branch_other(
                            r.forge,
                            auto_merge_branch(),
                            base_sha,
                            ForcePush::Yes,
                            name,
                        );
                        let msg = merge_commit_message(
                            pr.number,
                            gh.head_label,
                            pr.approver,
                            gh.title,
                            gh.message,
                        );
                        let (f2, res2) = spec_merge_branches(
                            f1,
                            auto_merge_branch(),
                            gh.head_sha,
                            msg,
                        );
                        lemma_merge_other(f1, auto_merge_branch(), gh.head_sha, msg, name);
                        match res2 {
                            Ok(merge_sha) => {
                                let (f3, res3) = spec_set_branch(
                                    f2,
                                    auto_branch(),
                                    merge_sha,
                                    ForcePush::Yes,
                                );
                                lemma_set_branch_other(
                                    f2,
                                    auto_branch(),
                                    merge_sha,
                                    ForcePush::Yes,
                                    name,
                                );
                                let pend = crate::tick::pending_ids(
                                    crate::forge::spec_runs_for_commit(
                                        f3.workflow_runs,
                                        merge_sha,
                                    ),
                                );
                                let f4 = crate::forge::spec_cancel_workflows(f3, pend);
                                assert(f4.branches == f3.branches);
                                lemma_set_branch_other(
                                    f4,
                                    auto_branch(),
                                    base_sha,
                                    ForcePush::Yes,
                                    name,
                                );
                            },
                            Err(_) => {},
                        }
                    },
                }
            },
        }
    }
}

/// One tick steps each repository from `k` on exactly once, in
/// order, and never touches those before `k`.
pub proof fn lemma_step_world_elements(repos: Seq<RepoStateV>, now: u64, k: int)
    requires
        0 <= k,
    ensures
        step_world(repos, now, k).len() == repos.len(),
        forall|j: int| 0 <= j < k ==> #[trigger] step_world(repos, now, k)[j] == repos[j],
        forall|j: int|
            k <= j < repos.len() ==> #[trigger] step_world(repos, now, k)[j] == step_repo(
                repos[j],
                now,
            ),
    decreases repos.len() - k,
{
    if k < 0 || k >= repos.len() {
    } else {
        let repos2 = repos.update(k, step_repo(repos[k], now));
        lemma_step_world_elements(repos2, now, k + 1);
    }
}

/// Single-flight over a whole tick: when every pull request with a
/// pending build is visible to its queue, a tick leaves every
/// repository's store single-flight.
pub proof fn lemma_tick_single_flight(repos: Seq<RepoStateV>, now: u64)
    requires
        forall|j: int| 0 <= j < repos.len() ==> single_flight((#[trigger] repos[j]).store),
        forall|j: int| 0 <= j < repos.len() ==> (#[trigger] repos[j]).store.prs.len()
            <= usize::MAX,
        forall|j: int, p: int|
            0 <= j < repos.len() && 0 <= p < repos[j].store.prs.len() && pr_pending(
                #[trigger] repos[j].store.prs[p],
            ) ==> eligible(repos[j].store.prs[p], repos[j].min_priority),
    ensures
        forall|j: int|
            0 <= j < repos.len() ==> single_flight(
                (#[trigger] step_world(repos, now, 0)[j]).store,
            ),
{
    lemma_step_world_elements(repos, now, 0);
    assert forall|j: int|
        0 <= j < repos.len() implies single_flight(
        (#[trigger] step_world(repos, now, 0)[j]).store,
    ) by {
        lemma_step_single_flight(repos[j], now);
    }
}

/// A tick walks unchanged over a prefix of repositories it has no
/// work in.
proof fn lemma_step_world_prefix(repos: Seq<RepoStateV>, now: u64, k: int)
    requires
        0 <= k,
        forall|j: int|
            0 <= j < k && j < repos.len() ==> step_repo(#[trigger] repos[j], now) == repos[j],
    ensures
        step_world(repos, now, 0) == step_world(repos, now, k),
    decreases k,
{
    if k > 0 {
        lemma_step_world_prefix(repos, now, k - 1);
        if k - 1 < repos.len() {
            let repos2 = repos.update(k - 1, step_repo(repos[k - 1], now));
            assert(repos2 =~= repos);
            assert(step_world(repos, now, k - 1) == step_world(repos2, now, k));
        }
    }
}

/// Idempotency over a whole tick: with every repository quiescent, a
/// second tick on the heels of a first changes nothing.
pub proof fn lemma_tick_idempotent(repos: Seq<RepoStateV>, now: u64)
    requires
        forall|j: int| 0 <= j < repos.len() ==> quiescent(#[trigger] repos[j]),
    ensures
        step_world(step_world(repos, now, 0), now, 0) == step_world(repos, now, 0),
{
    lemma_tick_idempotent_from(repos, now, 0);
}

/// The inductive core of tick idempotency: the repositories before
/// `k` are already stepped fixed points the tick walks over.
proof fn lemma_tick_idempotent_from(repos: Seq<RepoStateV>, now: u64, k: int)
    requires
        0 <= k,
        forall|j: int|
            0 <= j < k && j < repos.len() ==> step_repo(#[trigger] repos[j], now) == repos[j],
        forall|j: int| k <= j < repos.len() ==> quiescent(#[trigger] repos[j]),
    ensures
        step_world(step_world(repos, now, k), now, 0) == step_world(repos, now, k),
    decreases repos.len() - k,
{
    if k >= repos.len() {
        // Nothing left to step: the tick walks the fixed points and
        // changes nothing.
        lemma_step_world_prefix(repos, now, repos.len() as int);
        assert(step_world(repos, now, k) == repos);
        assert(step_world(repos, now, repos.len() as int) == repos);
    } else {
        let repos2 = repos.update(k, step_repo(repos[k], now));
        lemma_step_idempotent(repos[k], now);
        assert(step_world(repos, now, k) == step_world(repos2, now, k + 1));
        lemma_tick_idempotent_from(repos2, now, k + 1);
    }
}

} // verus!
