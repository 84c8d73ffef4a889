//! The queue store: pull requests, builds and workflows, held as plain
//! values. The real bot keeps these rows in a database; the core only
//! depends on the queries modelled here. Failures of the store are part
//! of its behaviour (the database is not transactional with the forge),
//! so each mutating query can be configured to fail.

use vstd::prelude::*;
use crate::command::{Priority, RollupMode};

verus! {

/// Status of an auto build.
#[derive(Copy, Clone, Debug, PartialEq, Eq, Structural)]
pub enum BuildStatus {
    /// The build is still waiting for CI results.
    Pending,
    /// CI succeeded on the merge commit.
    Success,
    /// CI failed, or the tick engine failed to push after success.
    Failure,
    /// CI was cancelled.
    Cancelled,
    /// CI did not finish in time.
    Timeouted,
}

/// Mergeability of a pull request, as last observed.
#[derive(Copy, Clone, Debug, PartialEq, Eq, Structural)]
pub enum MergeableState {
    Unknown,
    Mergeable,
    HasConflicts,
}

/// Lifecycle status of a pull request.
#[derive(Copy, Clone, Debug, PartialEq, Eq, Structural)]
pub enum PullRequestStatus {
    Open,
    Approved,
    Merged,
    Closed,
}

/// An error returned by a store query.
#[derive(Copy, Clone, Debug, PartialEq, Eq, Structural)]
pub struct StoreError;

/// An auto build row.
pub struct Build {
    pub id: u64,
    pub pr_number: u64,
    pub branch: String,
    pub commit_sha: String,
    pub parent_sha: String,
    pub status: BuildStatus,
    pub check_run_id: Option<u64>,
}

/// Mathematical model of a build row.
#[verifier::ext_equal]
pub ghost struct BuildV {
    pub id: u64,
    pub pr_number: u64,
    pub branch: Seq<char>,
    pub commit_sha: Seq<char>,
    pub parent_sha: Seq<char>,
    pub status: BuildStatus,
    pub check_run_id: Option<u64>,
}

impl View for Build {
    type V = BuildV;

    open spec fn view(&self) -> BuildV {
        BuildV {
            id: self.id,
            pr_number: self.pr_number,
            branch: self.branch@,
            commit_sha: self.commit_sha@,
            parent_sha: self.parent_sha@,
            status: self.status,
            check_run_id: self.check_run_id,
        }
    }
}

impl DeepView for Build {
    type V = BuildV;

    open spec fn deep_view(&self) -> BuildV {
        self@
    }
}

/// A pull request row, with its current auto build embedded.
pub struct PullRequestModel {
    pub number: u64,
    pub base_branch: String,
    pub approver: Option<String>,
    pub priority: Option<Priority>,
    pub rollup: Option<RollupMode>,
    pub status: PullRequestStatus,
    pub mergeable_state: MergeableState,
    pub auto_build: Option<Build>,
}

/// Mathematical model of a pull request row.
#[verifier::ext_equal]
pub ghost struct PullRequestV {
    pub number: u64,
    pub base_branch: Seq<char>,
    pub approver: Option<Seq<char>>,
    pub priority: Option<Priority>,
    pub rollup: Option<RollupMode>,
    pub status: PullRequestStatus,
    pub mergeable_state: MergeableState,
    pub auto_build: Option<BuildV>,
}

impl View for PullRequestModel {
    type V = PullRequestV;

    open spec fn view(&self) -> PullRequestV {
        PullRequestV {
            number: self.number,
            base_branch: self.base_branch@,
            approver: self.approver.deep_view(),
            priority: self.priority,
            rollup: self.rollup,
            status: self.status,
            mergeable_state: self.mergeable_state,
            auto_build: self.auto_build.deep_view(),
        }
    }
}

impl DeepView for PullRequestModel {
    type V = PullRequestV;

    open spec fn deep_view(&self) -> PullRequestV {
        self@
    }
}

/// A CI workflow row attached to a build; the core only reads these to
/// render the success comment.
pub struct Workflow {
    pub build_id: u64,
    pub name: String,
    pub url: String,
}

/// Mathematical model of a workflow row.
#[verifier::ext_equal]
pub ghost struct WorkflowV {
    pub build_id: u64,
    pub name: Seq<char>,
    pub url: Seq<char>,
}

impl View for Workflow {
    type V = WorkflowV;

    open spec fn view(&self) -> WorkflowV {
        WorkflowV { build_id: self.build_id, name: self.name@, url: self.url@ }
    }
}

impl DeepView for Workflow {
    type V = WorkflowV;

    open spec fn deep_view(&self) -> WorkflowV {
        self@
    }
}

/// The store of one repository.
pub struct Store {
    pub prs: Vec<PullRequestModel>,
    pub workflows: Vec<Workflow>,
    pub next_build_id: u64,
    /// When set, `attach_auto_build` fails.
    pub attach_failure: bool,
    /// When set, `set_pr_status` fails.
    pub status_failure: bool,
    /// When set, `update_pr_mergeable_state` fails.
    pub mergeable_failure: bool,
    /// When set, `update_build_status` fails.
    pub build_status_failure: bool,
}

/// Mathematical model of the store.
#[verifier::ext_equal]
pub ghost struct StoreV {
    pub prs: Seq<PullRequestV>,
    pub workflows: Seq<WorkflowV>,
    pub next_build_id: u64,
    pub attach_failure: bool,
    pub status_failure: bool,
    pub mergeable_failure: bool,
    pub build_status_failure: bool,
}

impl View for Store {
    type V = StoreV;

    open spec fn view(&self) -> StoreV {
        StoreV {
            prs: self.prs.deep_view(),
            workflows: self.workflows.deep_view(),
            next_build_id: self.next_build_id,
            attach_failure: self.attach_failure,
            status_failure: self.status_failure,
            mergeable_failure: self.mergeable_failure,
            build_status_failure: self.build_status_failure,
        }
    }
}

/// The store after a new pending build was attached to the pull request
/// at `pr_idx`.
pub open spec fn spec_attach_auto_build(
    s: StoreV,
    pr_idx: int,
    branch: Seq<char>,
    commit_sha: Seq<char>,
    parent_sha: Seq<char>,
) -> StoreV {
    StoreV {
        prs: s.prs.update(
            pr_idx,
            PullRequestV {
                auto_build: Some(
                    BuildV {
                        id: s.next_build_id,
                        pr_number: s.prs[pr_idx].number,
                        branch: branch,
                        commit_sha: commit_sha,
                        parent_sha: parent_sha,
                        status: BuildStatus::Pending,
                        check_run_id: None,
                    },
                ),
                ..s.prs[pr_idx]
            },
        ),
        next_build_id: (s.next_build_id + 1) as u64,
        ..s
    }
}

/// The store after one field of the pull request at `pr_idx` changed.
pub open spec fn spec_update_pr(s: StoreV, pr_idx: int, pr: PullRequestV) -> StoreV {
    StoreV { prs: s.prs.update(pr_idx, pr), ..s }
}

impl Store {
    /// Create a new pending build row for the pull request at `pr_idx`,
    /// attach it, and return the build id.
    pub fn attach_auto_build(
        &mut self,
        pr_idx: usize,
        branch: String,
        commit_sha: String,
        parent_sha: String,
    ) -> (r: Result<u64, StoreError>)
        requires
            pr_idx < old(self)@.prs.len(),
            old(self)@.next_build_id < u64::MAX,
        ensures
            old(self)@.attach_failure ==> r is Err && final(self)@ == old(self)@,
            !old(self)@.attach_failure ==> r == Ok::<u64, StoreError>(old(self)@.next_build_id)
                && final(self)@ == spec_attach_auto_build(
                old(self)@,
                pr_idx as int,
                branch@,
                commit_sha@,
                parent_sha@,
            ),
    {
        if self.attach_failure {
            return Err(StoreError);
        }
        let id = self.next_build_id;
        let pr_number = self.prs[pr_idx].number;
        self.prs[pr_idx].auto_build = Some(
            Build {
                id,
                pr_number,
                branch,
                commit_sha,
                parent_sha,
                status: BuildStatus::Pending,
                check_run_id: None,
            },
        );
        self.next_build_id = id + 1;
        proof {
            assert(final(self)@.prs =~= spec_attach_auto_build(
                old(self)@,
                pr_idx as int,
                branch@,
                commit_sha@,
                parent_sha@,
            ).prs);
        }
        Ok(id)
    }

    /// Record the mergeability of the pull request at `pr_idx`.
    pub fn update_pr_mergeable_state(&mut self, pr_idx: usize, state: MergeableState) -> (r:
        Result<(), StoreError>)
        requires
            pr_idx < old(self)@.prs.len(),
        ensures
            old(self)@.mergeable_failure ==> r is Err && final(self)@ == old(self)@,
            !old(self)@.mergeable_failure ==> r is Ok && final(self)@ == spec_update_pr(
                old(self)@,
                pr_idx as int,
                (PullRequestV { mergeable_state: state, ..old(self)@.prs[pr_idx as int] }),
            ),
    {
        if self.mergeable_failure {
            return Err(StoreError);
        }
        self.prs[pr_idx].mergeable_state = state;
        proof {
            assert(final(self)@.prs =~= spec_update_pr(
                old(self)@,
                pr_idx as int,
                (PullRequestV { mergeable_state: state, ..old(self)@.prs[pr_idx as int] }),
            ).prs);
        }
        Ok(())
    }

    /// Record the lifecycle status of the pull request at `pr_idx`.
    pub fn set_pr_status(&mut self, pr_idx: usize, status: PullRequestStatus) -> (r: Result<
        (),
        StoreError,
    >)
        requires
            pr_idx < old(self)@.prs.len(),
        ensures
            old(self)@.status_failure ==> r is Err && final(self)@ == old(self)@,
            !old(self)@.status_failure ==> r is Ok && final(self)@ == spec_update_pr(
                old(self)@,
                pr_idx as int,
                (PullRequestV { status: status, ..old(self)@.prs[pr_idx as int] }),
            ),
    {
        if self.status_failure {
            return Err(StoreError);
        }
        self.prs[pr_idx].status = status;
        proof {
            assert(final(self)@.prs =~= spec_update_pr(
                old(self)@,
                pr_idx as int,
                (PullRequestV { status: status, ..old(self)@.prs[pr_idx as int] }),
            ).prs);
        }
        Ok(())
    }

    /// Record the status of the build attached to the pull request at
    /// `pr_idx`.
    pub fn update_build_status(&mut self, pr_idx: usize, status: BuildStatus) -> (r: Result<
        (),
        StoreError,
    >)
        requires
            pr_idx < old(self)@.prs.len(),
            old(self)@.prs[pr_idx as int].auto_build is Some,
        ensures
            old(self)@.build_status_failure ==> r is Err && final(self)@ == old(self)@,
            !old(self)@.build_status_failure ==> r is Ok && final(self)@ == spec_update_pr(
                old(self)@,
                pr_idx as int,
                (PullRequestV {
                    auto_build: Some(
                        BuildV {
                            status: status,
                            ..old(self)@.prs[pr_idx as int].auto_build.unwrap()
                        },
                    ),
                    ..old(self)@.prs[pr_idx as int]
                }),
            ),
    {
        if self.build_status_failure {
            return Err(StoreError);
        }
        let mut build = self.prs[pr_idx].auto_build.take().unwrap();
        build.status = status;
        self.prs[pr_idx].auto_build = Some(build);
        proof {
            assert(final(self)@.prs =~= spec_update_pr(
                old(self)@,
                pr_idx as int,
                (PullRequestV {
                    auto_build: Some(
                        BuildV {
                            status: status,
                            ..old(self)@.prs[pr_idx as int].auto_build.unwrap()
                        },
                    ),
                    ..old(self)@.prs[pr_idx as int]
                }),
            ).prs);
        }
        Ok(())
    }

    /// Record the forge check run handle on the build attached to the
    /// pull request at `pr_idx`.
    pub fn update_build_check_run_id(&mut self, pr_idx: usize, check_run_id: u64)
        requires
            pr_idx < old(self)@.prs.len(),
            old(self)@.prs[pr_idx as int].auto_build is Some,
        ensures
            final(self)@ == spec_update_pr(
                old(self)@,
                pr_idx as int,
                (PullRequestV {
                    auto_build: Some(
                        BuildV {
                            check_run_id: Some(check_run_id),
                            ..old(self)@.prs[pr_idx as int].auto_build.unwrap()
                        },
                    ),
                    ..old(self)@.prs[pr_idx as int]
                }),
            ),
    {
        let mut build = self.prs[pr_idx].auto_build.take().unwrap();
        build.check_run_id = Some(check_run_id);
        self.prs[pr_idx].auto_build = Some(build);
        proof {
            assert(final(self)@.prs =~= spec_update_pr(
                old(self)@,
                pr_idx as int,
                (PullRequestV {
                    auto_build: Some(
                        BuildV {
                            check_run_id: Some(check_run_id),
                            ..old(self)@.prs[pr_idx as int].auto_build.unwrap()
                        },
                    ),
                    ..old(self)@.prs[pr_idx as int]
                }),
            ).prs);
        }
    }
}

} // verus!
