//! The forge (GitHub-like host), held as plain values: branches, pull
//! requests, check runs, comments and workflow runs. The real bot talks
//! to the forge over HTTP; the core only depends on the operations
//! modelled here. Forge operations are non-atomic and externally
//! failable, so pushes, merges and check-run creation can be configured
//! to fail, branch by branch.

use vstd::prelude::*;
use vstd::string::StringExecFns;
use crate::strutil::{decimal, u64_to_string};

verus! {

/// Whether a branch update may discard commits.
#[derive(Copy, Clone, Debug, PartialEq, Eq, Structural)]
pub enum ForcePush {
    Yes,
    No,
}

/// Status of a check run on the forge.
#[derive(Copy, Clone, Debug, PartialEq, Eq, Structural)]
pub enum CheckRunStatus {
    InProgress,
    Completed,
}

/// Conclusion of a completed check run.
#[derive(Copy, Clone, Debug, PartialEq, Eq, Structural)]
pub enum CheckRunConclusion {
    Success,
    Failure,
}

/// Status of a workflow run on the forge.
#[derive(Copy, Clone, Debug, PartialEq, Eq, Structural)]
pub enum WorkflowRunStatus {
    Queued,
    InProgress,
    Completed,
    Cancelled,
}

/// Why a branch update was refused.
#[derive(Copy, Clone, Debug, PartialEq, Eq, Structural)]
pub enum BranchUpdateError {
    /// The update was not a fast-forward and force was not requested.
    FastForwardConflict,
    /// Protected branch, bad SHA, or insufficient permission.
    ValidationFailed,
    /// A transport error.
    Io,
}

impl BranchUpdateError {
    /// The error as rendered into comments.
    pub fn render(&self) -> (r: &'static str)
        ensures
            r@ == branch_update_error_text(*self),
    {
        match self {
            BranchUpdateError::FastForwardConflict => "fast-forward conflict",
            BranchUpdateError::ValidationFailed => "validation failed",
            BranchUpdateError::Io => "IO error",
        }
    }
}

/// The text of a branch update error.
pub open spec fn branch_update_error_text(e: BranchUpdateError) -> Seq<char> {
    match e {
        BranchUpdateError::FastForwardConflict => "fast-forward conflict"@,
        BranchUpdateError::ValidationFailed => "validation failed"@,
        BranchUpdateError::Io => "IO error"@,
    }
}

/// Why a merge was refused.
#[derive(Copy, Clone, Debug, PartialEq, Eq, Structural)]
pub enum MergeError {
    /// The two heads do not merge cleanly.
    Conflict,
    /// A transport error.
    Transport,
}

/// A check-run operation was refused by the forge.
#[derive(Copy, Clone, Debug, PartialEq, Eq, Structural)]
pub struct ForgeError;

/// A branch, with the history of the heads it has pointed to.
pub struct Branch {
    pub name: String,
    pub sha: String,
    pub history: Vec<String>,
}

#[verifier::ext_equal]
pub ghost struct BranchV {
    pub name: Seq<char>,
    pub sha: Seq<char>,
    pub history: Seq<Seq<char>>,
}

impl View for Branch {
    type V = BranchV;

    open spec fn view(&self) -> BranchV {
        BranchV { name: self.name@, sha: self.sha@, history: self.history.deep_view() }
    }
}

impl DeepView for Branch {
    type V = BranchV;

    open spec fn deep_view(&self) -> BranchV {
        self@
    }
}

/// A pull request as the forge reports it.
pub struct ForgePullRequest {
    pub number: u64,
    pub head_sha: String,
    pub head_label: String,
    pub title: String,
    pub message: String,
    /// Whether a trial merge of this head into the base would conflict.
    pub conflicts_with_base: bool,
}

#[verifier::ext_equal]
pub ghost struct ForgePullRequestV {
    pub number: u64,
    pub head_sha: Seq<char>,
    pub head_label: Seq<char>,
    pub title: Seq<char>,
    pub message: Seq<char>,
    pub conflicts_with_base: bool,
}

impl View for ForgePullRequest {
    type V = ForgePullRequestV;

    open spec fn view(&self) -> ForgePullRequestV {
        ForgePullRequestV {
            number: self.number,
            head_sha: self.head_sha@,
            head_label: self.head_label@,
            title: self.title@,
            message: self.message@,
            conflicts_with_base: self.conflicts_with_base,
        }
    }
}

impl DeepView for ForgePullRequest {
    type V = ForgePullRequestV;

    open spec fn deep_view(&self) -> ForgePullRequestV {
        self@
    }
}

/// A check run on the forge.
pub struct CheckRun {
    pub id: u64,
    pub name: String,
    pub head_sha: String,
    pub status: CheckRunStatus,
    pub conclusion: Option<CheckRunConclusion>,
    /// The build id, as decimal text elsewhere; held as the number here.
    pub external_id: u64,
}

#[verifier::ext_equal]
pub ghost struct CheckRunV {
    pub id: u64,
    pub name: Seq<char>,
    pub head_sha: Seq<char>,
    pub status: CheckRunStatus,
    pub conclusion: Option<CheckRunConclusion>,
    pub external_id: u64,
}

impl View for CheckRun {
    type V = CheckRunV;

    open spec fn view(&self) -> CheckRunV {
        CheckRunV {
            id: self.id,
            name: self.name@,
            head_sha: self.head_sha@,
            status: self.status,
            conclusion: self.conclusion,
            external_id: self.external_id,
        }
    }
}

impl DeepView for CheckRun {
    type V = CheckRunV;

    open spec fn deep_view(&self) -> CheckRunV {
        self@
    }
}

/// A comment posted on a pull request.
pub struct PostedComment {
    pub pr_number: u64,
    pub text: String,
}

#[verifier::ext_equal]
pub ghost struct PostedCommentV {
    pub pr_number: u64,
    pub text: Seq<char>,
}

impl View for PostedComment {
    type V = PostedCommentV;

    open spec fn view(&self) -> PostedCommentV {
        PostedCommentV { pr_number: self.pr_number, text: self.text@ }
    }
}

impl DeepView for PostedComment {
    type V = PostedCommentV;

    open spec fn deep_view(&self) -> PostedCommentV {
        self@
    }
}

/// A CI workflow run observed on the forge.
pub struct WorkflowRun {
    pub id: u64,
    pub head_sha: String,
    pub status: WorkflowRunStatus,
}

#[verifier::ext_equal]
pub ghost struct WorkflowRunV {
    pub id: u64,
    pub head_sha: Seq<char>,
    pub status: WorkflowRunStatus,
}

impl View for WorkflowRun {
    type V = WorkflowRunV;

    open spec fn view(&self) -> WorkflowRunV {
        WorkflowRunV { id: self.id, head_sha: self.head_sha@, status: self.status }
    }
}

impl DeepView for WorkflowRun {
    type V = WorkflowRunV;

    open spec fn deep_view(&self) -> WorkflowRunV {
        self@
    }
}

/// A merge commit: its name, its first parent (used to decide whether
/// an update is a fast-forward), and its commit message.
pub struct CommitLink {
    pub sha: String,
    pub parent: String,
    pub message: String,
}

#[verifier::ext_equal]
pub ghost struct CommitLinkV {
    pub sha: Seq<char>,
    pub parent: Seq<char>,
    pub message: Seq<char>,
}

impl View for CommitLink {
    type V = CommitLinkV;

    open spec fn view(&self) -> CommitLinkV {
        CommitLinkV { sha: self.sha@, parent: self.parent@, message: self.message@ }
    }
}

impl DeepView for CommitLink {
    type V = CommitLinkV;

    open spec fn deep_view(&self) -> CommitLinkV {
        self@
    }
}

/// The forge state of one repository.
pub struct Forge {
    pub branches: Vec<Branch>,
    pub prs: Vec<ForgePullRequest>,
    pub check_runs: Vec<CheckRun>,
    pub comments: Vec<PostedComment>,
    pub workflow_runs: Vec<WorkflowRun>,
    pub merge_parents: Vec<CommitLink>,
    pub next_check_run_id: u64,
    pub merge_counter: u64,
    /// Branches whose updates fail with a transport error.
    pub push_failures: Vec<String>,
    /// Branches whose updates fail validation.
    pub validation_failures: Vec<String>,
    /// When set, creating a check run fails.
    pub check_run_failure: bool,
    /// When set, merging fails with a transport error.
    pub merge_failure: bool,
}

#[verifier::ext_equal]
pub ghost struct ForgeV {
    pub branches: Seq<BranchV>,
    pub prs: Seq<ForgePullRequestV>,
    pub check_runs: Seq<CheckRunV>,
    pub comments: Seq<PostedCommentV>,
    pub workflow_runs: Seq<WorkflowRunV>,
    pub merge_parents: Seq<CommitLinkV>,
    pub next_check_run_id: u64,
    pub merge_counter: u64,
    pub push_failures: Seq<Seq<char>>,
    pub validation_failures: Seq<Seq<char>>,
    pub check_run_failure: bool,
    pub merge_failure: bool,
}

impl View for Forge {
    type V = ForgeV;

    open spec fn view(&self) -> ForgeV {
        ForgeV {
            branches: self.branches.deep_view(),
            prs: self.prs.deep_view(),
            check_runs: self.check_runs.deep_view(),
            comments: self.comments.deep_view(),
            workflow_runs: self.workflow_runs.deep_view(),
            merge_parents: self.merge_parents.deep_view(),
            next_check_run_id: self.next_check_run_id,
            merge_counter: self.merge_counter,
            push_failures: self.push_failures.deep_view(),
            validation_failures: self.validation_failures.deep_view(),
            check_run_failure: self.check_run_failure,
            merge_failure: self.merge_failure,
        }
    }
}

/// Index of the first element of `s` satisfying `p`, or -1.
pub open spec fn first_match<T>(s: Seq<T>, p: spec_fn(T) -> bool) -> int
    decreases s.len(),
{
    if s.len() == 0 {
        -1
    } else if p(s[0]) {
        0
    } else {
        let r = first_match(s.drop_first(), p);
        if r < 0 {
            -1
        } else {
            r + 1
        }
    }
}

/// What `first_match` returns: the first index whose element satisfies
/// `p`, and -1 exactly when no element does.
pub proof fn lemma_first_match<T>(s: Seq<T>, p: spec_fn(T) -> bool)
    ensures
        first_match(s, p) < 0 ==> forall|j: int| 0 <= j < s.len() ==> !#[trigger] p(s[j]),
        first_match(s, p) >= 0 ==> first_match(s, p) < s.len() && p(s[first_match(s, p)]) && (
        forall|j: int| 0 <= j < first_match(s, p) ==> !#[trigger] p(s[j])),
    decreases s.len(),
{
    if s.len() != 0 && !p(s[0]) {
        let rest = s.drop_first();
        lemma_first_match(rest, p);
        let fmr = first_match(rest, p);
        if fmr < 0 {
            assert forall|j: int| 0 <= j < s.len() implies !#[trigger] p(s[j]) by {
                if j > 0 {
                    assert(rest[j - 1] == s[j]);
                    assert(!p(rest[j - 1]));
                }
            }
        } else {
            assert(rest[fmr] == s[fmr + 1]);
            assert forall|j: int| 0 <= j < fmr + 1 implies !#[trigger] p(s[j]) by {
                if j > 0 {
                    assert(rest[j - 1] == s[j]);
                    assert(!p(rest[j - 1]));
                }
            }
        }
    }
}

/// Two lists on which `p` agrees pointwise have the same first match.
pub proof fn lemma_first_match_same<T>(s1: Seq<T>, s2: Seq<T>, p: spec_fn(T) -> bool)
    requires
        s1.len() == s2.len(),
        forall|j: int| 0 <= j < s1.len() ==> p(#[trigger] s1[j]) == p(#[trigger] s2[j]),
    ensures
        first_match(s1, p) == first_match(s2, p),
    decreases s1.len(),
{
    if s1.len() != 0 {
        assert(p(s1[0]) == p(s2[0]));
        assert(forall|j: int|
            0 <= j < s1.drop_first().len() ==> #[trigger] s1.drop_first()[j] == s1[j + 1]
                && #[trigger] s2.drop_first()[j] == s2[j + 1]);
        lemma_first_match_same(s1.drop_first(), s2.drop_first(), p);
    }
}

/// What pushing an element does to the first match.
pub proof fn lemma_first_match_push<T>(s: Seq<T>, x: T, p: spec_fn(T) -> bool)
    ensures
        first_match(s.push(x), p) == (if first_match(s, p) >= 0 {
            first_match(s, p)
        } else if p(x) {
            s.len() as int
        } else {
            -1
        }),
    decreases s.len(),
{
    if s.len() == 0 {
        assert(s.push(x)[0] == x);
        assert(s.push(x).drop_first() =~= Seq::<T>::empty());
        assert(first_match(s, p) == -1);
        assert(first_match(s.push(x).drop_first(), p) == -1);
        if p(x) {
            assert(first_match(s.push(x), p) == 0);
        } else {
            assert(first_match(s.push(x), p) == -1);
        }
    } else {
        assert(s.push(x)[0] == s[0]);
        assert(s.push(x).drop_first() =~= s.drop_first().push(x));
        lemma_first_match_push(s.drop_first(), x, p);
        let rec = first_match(s.push(x).drop_first(), p);
        assert(rec == first_match(s.drop_first().push(x), p));
        if p(s[0]) {
            assert(first_match(s.push(x), p) == 0);
            assert(first_match(s, p) == 0);
        } else if first_match(s.drop_first(), p) >= 0 {
            assert(rec == first_match(s.drop_first(), p));
            assert(first_match(s.push(x), p) == rec + 1);
            assert(first_match(s, p) == first_match(s.drop_first(), p) + 1);
        } else if p(x) {
            assert(rec == s.drop_first().len());
            assert(first_match(s.push(x), p) == rec + 1);
            assert(first_match(s, p) == -1);
        } else {
            assert(rec == -1);
            assert(first_match(s.push(x), p) == -1);
            assert(first_match(s, p) == -1);
        }
    }
}

/// The branch with a given name.
pub open spec fn branch_named(name: Seq<char>) -> spec_fn(BranchV) -> bool {
    |b: BranchV| b.name == name
}

/// The pull request with a given head commit.
pub open spec fn pr_with_head(sha: Seq<char>) -> spec_fn(ForgePullRequestV) -> bool {
    |p: ForgePullRequestV| p.head_sha == sha
}

/// The pull request with a given number.
pub open spec fn pr_numbered(n: u64) -> spec_fn(ForgePullRequestV) -> bool {
    |p: ForgePullRequestV| p.number == n
}

/// The merge link from `parent` to `sha`.
pub open spec fn link_from_to(parent: Seq<char>, sha: Seq<char>) -> spec_fn(CommitLinkV) -> bool {
    |l: CommitLinkV| l.sha == sha && l.parent == parent
}

/// The check run with a given id.
pub open spec fn check_run_with_id(id: u64) -> spec_fn(CheckRunV) -> bool {
    |c: CheckRunV| c.id == id
}

/// Index of the branch called `name`, or -1.
pub open spec fn spec_branch_idx(f: ForgeV, name: Seq<char>) -> int {
    first_match(f.branches, branch_named(name))
}

/// Whether the forge has a branch called `name`.
pub open spec fn has_branch(f: ForgeV, name: Seq<char>) -> bool {
    spec_branch_idx(f, name) >= 0
}

/// The head of the branch called `name`.
pub open spec fn branch_sha(f: ForgeV, name: Seq<char>) -> Seq<char> {
    f.branches[spec_branch_idx(f, name)].sha
}

/// Whether moving a branch head from `cur` to `new` is a fast-forward:
/// either a no-op, or a step to a commit whose recorded parent is `cur`.
pub open spec fn fast_forward_ok(f: ForgeV, cur: Seq<char>, new: Seq<char>) -> bool {
    new == cur || first_match(f.merge_parents, link_from_to(cur, new)) >= 0
}

/// The name the forge gives to a new merge commit.
pub open spec fn merge_sha_text(counter: u64, pr_number: u64) -> Seq<char> {
    "merge-"@ + decimal(counter as nat) + "-pr-"@ + decimal(pr_number as nat)
}

/// The forge after a branch update, and the outcome of the update.
pub open spec fn spec_set_branch(f: ForgeV, name: Seq<char>, sha: Seq<char>, force: ForcePush) -> (
    ForgeV,
    Result<(), BranchUpdateError>,
) {
    if f.validation_failures.contains(name) {
        (f, Err(BranchUpdateError::ValidationFailed))
    } else if f.push_failures.contains(name) {
        (f, Err(BranchUpdateError::Io))
    } else {
        let i = spec_branch_idx(f, name);
        if i < 0 {
            (
                ForgeV {
                    branches: f.branches.push(
                        BranchV { name: name, sha: sha, history: seq![sha] },
                    ),
                    ..f
                },
                Ok(()),
            )
        } else if f.branches[i].sha == sha {
            (f, Ok(()))
        } else if force is No && !fast_forward_ok(f, f.branches[i].sha, sha) {
            (f, Err(BranchUpdateError::FastForwardConflict))
        } else {
            (
                ForgeV {
                    branches: f.branches.update(
                        i,
                        BranchV {
                            sha: sha,
                            history: f.branches[i].history.push(sha),
                            ..f.branches[i]
                        },
                    ),
                    ..f
                },
                Ok(()),
            )
        }
    }
}

/// The forge after a merge of `head` into the branch called `branch`
/// with commit message `message`, and the outcome: the new merge
/// commit, or why there is none.
pub open spec fn spec_merge_branches(
    f: ForgeV,
    branch: Seq<char>,
    head: Seq<char>,
    message: Seq<char>,
) -> (ForgeV, Result<Seq<char>, MergeError>) {
    if f.merge_failure {
        (f, Err(MergeError::Transport))
    } else {
        let bi = spec_branch_idx(f, branch);
        let pi = first_match(f.prs, pr_with_head(head));
        if bi < 0 || pi < 0 {
            (f, Err(MergeError::Transport))
        } else if f.prs[pi].conflicts_with_base {
            (f, Err(MergeError::Conflict))
        } else {
            let sha = merge_sha_text(f.merge_counter, f.prs[pi].number);
            (
                ForgeV {
                    branches: f.branches.update(
                        bi,
                        BranchV {
                            sha: sha,
                            history: f.branches[bi].history.push(sha),
                            ..f.branches[bi]
                        },
                    ),
                    merge_parents: f.merge_parents.push(
                        CommitLinkV { sha: sha, parent: f.branches[bi].sha, message: message },
                    ),
                    merge_counter: (f.merge_counter + 1) as u64,
                    ..f
                },
                Ok(sha),
            )
        }
    }
}

/// The forge after a comment was posted.
pub open spec fn spec_post_comment(f: ForgeV, pr_number: u64, text: Seq<char>) -> ForgeV {
    ForgeV { comments: f.comments.push(PostedCommentV { pr_number, text }), ..f }
}

/// The forge after a check run was created, and the new check run id.
pub open spec fn spec_create_check_run(
    f: ForgeV,
    name: Seq<char>,
    head_sha: Seq<char>,
    external_id: u64,
) -> (ForgeV, Result<u64, ForgeError>) {
    if f.check_run_failure {
        (f, Err(ForgeError))
    } else {
        (
            ForgeV {
                check_runs: f.check_runs.push(
                    CheckRunV {
                        id: f.next_check_run_id,
                        name: name,
                        head_sha: head_sha,
                        status: CheckRunStatus::InProgress,
                        conclusion: None,
                        external_id: external_id,
                    },
                ),
                next_check_run_id: (f.next_check_run_id + 1) as u64,
                ..f
            },
            Ok(f.next_check_run_id),
        )
    }
}

/// The forge after a check run was updated, and whether it was found.
pub open spec fn spec_update_check_run(
    f: ForgeV,
    id: u64,
    status: CheckRunStatus,
    conclusion: Option<CheckRunConclusion>,
) -> (ForgeV, Result<(), ForgeError>) {
    let i = first_match(f.check_runs, check_run_with_id(id));
    if i < 0 {
        (f, Err(ForgeError))
    } else {
        (
            ForgeV {
                check_runs: f.check_runs.update(
                    i,
                    CheckRunV { status: status, conclusion: conclusion, ..f.check_runs[i] },
                ),
                ..f
            },
            Ok(()),
        )
    }
}

/// The forge after the workflow runs in `ids` were cancelled.
pub open spec fn spec_cancel_workflows(f: ForgeV, ids: Seq<u64>) -> ForgeV {
    ForgeV {
        workflow_runs: f.workflow_runs.map_values(
            |w: WorkflowRunV|
                if ids.contains(w.id) {
                    WorkflowRunV { status: WorkflowRunStatus::Cancelled, ..w }
                } else {
                    w
                },
        ),
        ..f
    }
}

/// The workflow runs observed for a commit, as (id, status) pairs.
pub open spec fn spec_runs_for_commit(runs: Seq<WorkflowRunV>, sha: Seq<char>) -> Seq<
    (u64, WorkflowRunStatus),
>
    decreases runs.len(),
{
    if runs.len() == 0 {
        Seq::empty()
    } else {
        spec_runs_for_commit(runs.drop_last(), sha) + (if runs.last().head_sha == sha {
            seq![(runs.last().id, runs.last().status)]
        } else {
            Seq::empty()
        })
    }
}

/// Whether `x` occurs in the list.
#[verifier::loop_isolation(false)]
fn contains_u64(list: &Vec<u64>, x: u64) -> (r: bool)
    ensures
        r == list@.contains(x),
{
    let mut i: usize = 0;
    while i < list.len()
        invariant
            i <= list.len(),
            forall|j: int| 0 <= j < i ==> list@[j] != x,
        decreases list.len() - i,
    {
        if list[i] == x {
            return true;
        }
        i += 1;
    }
    false
}

/// Whether a string occurs in the list.
#[verifier::loop_isolation(false)]
fn contains_string(list: &Vec<String>, x: &String) -> (r: bool)
    ensures
        r == list.deep_view().contains(x@),
{
    let mut i: usize = 0;
    while i < list.len()
        invariant
            i <= list.len(),
            forall|j: int| 0 <= j < i ==> list.deep_view()[j] != x@,
        decreases list.len() - i,
    {
        if list[i] == *x {
            proof {
                assert(list.deep_view()[i as int] == x@);
            }
            return true;
        }
        i += 1;
    }
    proof {
        assert(forall|j: int| 0 <= j < list.deep_view().len() ==> list.deep_view()[j] != x@);
    }
    false
}

impl Forge {
    /// Index of the branch called `name`.
    #[verifier::loop_isolation(false)]
    fn branch_index(&self, name: &String) -> (r: Option<usize>)
        ensures
            match r {
                Some(i) => spec_branch_idx(self@, name@) == i && i < self@.branches.len(),
                None => spec_branch_idx(self@, name@) < 0,
            },
    {
        let ghost p = branch_named(name@);
        let mut i: usize = 0;
        while i < self.branches.len()
            invariant
                i <= self.branches.len(),
                forall|j: int| 0 <= j < i ==> !#[trigger] p(self@.branches[j]),
            decreases self.branches.len() - i,
        {
            if self.branches[i].name == *name {
                proof {
                    assert(p(self@.branches[i as int]));
                    lemma_first_match(self@.branches, p);
                }
                return Some(i);
            }
            i += 1;
        }
        proof {
            lemma_first_match(self@.branches, p);
        }
        None
    }

    /// Index of the pull request whose head is `sha`.
    #[verifier::loop_isolation(false)]
    fn pr_index_by_head(&self, sha: &String) -> (r: Option<usize>)
        ensures
            match r {
                Some(i) => first_match(self@.prs, pr_with_head(sha@)) == i && i < self@.prs.len(),
                None => first_match(self@.prs, pr_with_head(sha@)) < 0,
            },
    {
        let ghost p = pr_with_head(sha@);
        let mut i: usize = 0;
        while i < self.prs.len()
            invariant
                i <= self.prs.len(),
                forall|j: int| 0 <= j < i ==> !#[trigger] p(self@.prs[j]),
            decreases self.prs.len() - i,
        {
            if self.prs[i].head_sha == *sha {
                proof {
                    assert(p(self@.prs[i as int]));
                    lemma_first_match(self@.prs, p);
                }
                return Some(i);
            }
            i += 1;
        }
        proof {
            lemma_first_match(self@.prs, p);
        }
        None
    }

    /// Index of the pull request numbered `n`.
    #[verifier::loop_isolation(false)]
    pub fn pr_index_by_number(&self, n: u64) -> (r: Option<usize>)
        ensures
            match r {
                Some(i) => first_match(self@.prs, pr_numbered(n)) == i && i < self@.prs.len(),
                None => first_match(self@.prs, pr_numbered(n)) < 0,
            },
    {
        let ghost p = pr_numbered(n);
        let mut i: usize = 0;
        while i < self.prs.len()
            invariant
                i <= self.prs.len(),
                forall|j: int| 0 <= j < i ==> !#[trigger] p(self@.prs[j]),
            decreases self.prs.len() - i,
        {
            if self.prs[i].number == n {
                proof {
                    assert(p(self@.prs[i as int]));
                    lemma_first_match(self@.prs, p);
                }
                return Some(i);
            }
            i += 1;
        }
        proof {
            lemma_first_match(self@.prs, p);
        }
        None
    }

    /// Whether moving from `cur` to `new` is a fast-forward.
    #[verifier::loop_isolation(false)]
    fn is_fast_forward(&self, cur: &String, new: &String) -> (r: bool)
        ensures
            r == fast_forward_ok(self@, cur@, new@),
    {
        if *new == *cur {
            return true;
        }
        let ghost p = link_from_to(cur@, new@);
        let mut i: usize = 0;
        while i < self.merge_parents.len()
            invariant
                i <= self.merge_parents.len(),
                forall|j: int| 0 <= j < i ==> !#[trigger] p(self@.merge_parents[j]),
            decreases self.merge_parents.len() - i,
        {
            if self.merge_parents[i].sha == *new && self.merge_parents[i].parent == *cur {
                proof {
                    assert(p(self@.merge_parents[i as int]));
                    lemma_first_match(self@.merge_parents, p);
                }
                return true;
            }
            i += 1;
        }
        proof {
            lemma_first_match(self@.merge_parents, p);
        }
        false
    }

    /// Current head of the branch called `name`.
    pub fn get_branch_sha(&self, name: &String) -> (r: String)
        requires
            has_branch(self@, name@),
        ensures
            r@ == branch_sha(self@, name@),
    {
        match self.branch_index(name) {
            Some(i) => crate::strutil::clone_string(&self.branches[i].sha),
            None => vstd::pervasive::unreached(),
        }
    }

    /// Advance or reset the branch called `name` to `sha`; a branch that
    /// does not exist yet is created. Without force, refuses updates
    /// that are not fast-forwards.
    pub fn set_branch_to_sha(&mut self, name: &String, sha: &String, force: ForcePush) -> (r:
        Result<(), BranchUpdateError>)
        ensures
            final(self)@ == spec_set_branch(old(self)@, name@, sha@, force).0,
            r == spec_set_branch(old(self)@, name@, sha@, force).1,
    {
        if contains_string(&self.validation_failures, name) {
            return Err(BranchUpdateError::ValidationFailed);
        }
        if contains_string(&self.push_failures, name) {
            return Err(BranchUpdateError::Io);
        }
        match self.branch_index(name) {
            None => {
                let mut history: Vec<String> = Vec::new();
                history.push(crate::strutil::clone_string(sha));
                self.branches.push(
                    Branch {
                        name: crate::strutil::clone_string(name),
                        sha: crate::strutil::clone_string(sha),
                        history,
                    },
                );
                proof {
                    assert(self@.branches =~~= spec_set_branch(
                        old(self)@,
                        name@,
                        sha@,
                        force,
                    ).0.branches);
                }
                Ok(())
            },
            Some(i) => {
                if self.branches[i].sha == *sha {
                    return Ok(());
                }
                if force == ForcePush::No && !self.is_fast_forward(
                    &self.branches[i].sha,
                    sha,
                ) {
                    return Err(BranchUpdateError::FastForwardConflict);
                }
                self.branches[i].sha = crate::strutil::clone_string(sha);
                self.branches[i].history.push(crate::strutil::clone_string(sha));
                proof {
                    assert(self@.branches =~~= spec_set_branch(
                        old(self)@,
                        name@,
                        sha@,
                        force,
                    ).0.branches);
                }
                Ok(())
            },
        }
    }

    /// Create a merge commit on the branch called `branch` merging
    /// `head` into it with commit message `message`, and return the
    /// new commit.
    pub fn merge_branches(&mut self, branch: &String, head_sha: &String, message: &String) -> (r:
        Result<String, MergeError>)
        requires
            old(self)@.merge_counter < u64::MAX,
        ensures
            final(self)@ == spec_merge_branches(old(self)@, branch@, head_sha@, message@).0,
            match r {
                Ok(sha) => spec_merge_branches(old(self)@, branch@, head_sha@, message@).1 == Ok::<
                    Seq<char>,
                    MergeError,
                >(sha@),
                Err(e) => spec_merge_branches(old(self)@, branch@, head_sha@, message@).1 == Err::<
                    Seq<char>,
                    MergeError,
                >(e),
            },
    {
        if self.merge_failure {
            return Err(MergeError::Transport);
        }
        let bi = match self.branch_index(branch) {
            Some(i) => i,
            None => {
                return Err(MergeError::Transport);
            },
        };
        let pi = match self.pr_index_by_head(head_sha) {
            Some(i) => i,
            None => {
                return Err(MergeError::Transport);
            },
        };
        if self.prs[pi].conflicts_with_base {
            return Err(MergeError::Conflict);
        }
        let num = self.prs[pi].number;
        let mut sha = String::from_str("merge-");
        let counter_text = u64_to_string(self.merge_counter);
        sha.append(counter_text.as_str());
        sha.append("-pr-");
        let num_text = u64_to_string(num);
        sha.append(num_text.as_str());
        let parent = crate::strutil::clone_string(&self.branches[bi].sha);
        self.merge_parents.push(
            CommitLink {
                sha: crate::strutil::clone_string(&sha),
                parent,
                message: crate::strutil::clone_string(message),
            },
        );
        self.branches[bi].sha = crate::strutil::clone_string(&sha);
        self.branches[bi].history.push(crate::strutil::clone_string(&sha));
        self.merge_counter = self.merge_counter + 1;
        proof {
            assert(self@.branches =~~= spec_merge_branches(
                old(self)@,
                branch@,
                head_sha@,
                message@,
            ).0.branches);
            assert(self@.merge_parents =~~= spec_merge_branches(
                old(self)@,
                branch@,
                head_sha@,
                message@,
            ).0.merge_parents);
        }
        Ok(sha)
    }

    /// Post a comment on a pull request. Comments are best-effort for
    /// the engine, and always succeed here.
    pub fn post_comment(&mut self, pr_number: u64, text: String)
        ensures
            final(self)@ == spec_post_comment(old(self)@, pr_number, text@),
    {
        self.comments.push(PostedComment { pr_number, text });
        proof {
            assert(self@.comments =~~= spec_post_comment(
                old(self)@,
                pr_number,
                text@,
            ).comments);
        }
    }

    /// Create a check run named `name` on `head_sha`, in progress, with
    /// the given external id; returns the check run id.
    pub fn create_check_run(&mut self, name: String, head_sha: String, external_id: u64) -> (r:
        Result<u64, ForgeError>)
        requires
            old(self)@.next_check_run_id < u64::MAX,
        ensures
            final(self)@ == spec_create_check_run(old(self)@, name@, head_sha@, external_id).0,
            r == spec_create_check_run(old(self)@, name@, head_sha@, external_id).1,
    {
        if self.check_run_failure {
            return Err(ForgeError);
        }
        let id = self.next_check_run_id;
        self.check_runs.push(
            CheckRun {
                id,
                name,
                head_sha,
                status: CheckRunStatus::InProgress,
                conclusion: None,
                external_id,
            },
        );
        self.next_check_run_id = id + 1;
        proof {
            assert(self@.check_runs =~~= spec_create_check_run(
                old(self)@,
                name@,
                head_sha@,
                external_id,
            ).0.check_runs);
        }
        Ok(id)
    }

    /// Index of the check run with `id`.
    #[verifier::loop_isolation(false)]
    fn check_run_index(&self, id: u64) -> (r: Option<usize>)
        ensures
            match r {
                Some(i) => first_match(self@.check_runs, check_run_with_id(id)) == i && i
                    < self@.check_runs.len(),
                None => first_match(self@.check_runs, check_run_with_id(id)) < 0,
            },
    {
        let ghost p = check_run_with_id(id);
        let mut i: usize = 0;
        while i < self.check_runs.len()
            invariant
                i <= self.check_runs.len(),
                forall|j: int| 0 <= j < i ==> !#[trigger] p(self@.check_runs[j]),
            decreases self.check_runs.len() - i,
        {
            if self.check_runs[i].id == id {
                proof {
                    assert(p(self@.check_runs[i as int]));
                    lemma_first_match(self@.check_runs, p);
                }
                return Some(i);
            }
            i += 1;
        }
        proof {
            lemma_first_match(self@.check_runs, p);
        }
        None
    }

    /// Update the status and conclusion of the check run with `id`.
    pub fn update_check_run(
        &mut self,
        id: u64,
        status: CheckRunStatus,
        conclusion: Option<CheckRunConclusion>,
    ) -> (r: Result<(), ForgeError>)
        ensures
            final(self)@ == spec_update_check_run(old(self)@, id, status, conclusion).0,
            r == spec_update_check_run(old(self)@, id, status, conclusion).1,
    {
        match self.check_run_index(id) {
            None => Err(ForgeError),
            Some(i) => {
                self.check_runs[i].status = status;
                self.check_runs[i].conclusion = conclusion;
                proof {
                    assert(self@.check_runs =~~= spec_update_check_run(
                        old(self)@,
                        id,
                        status,
                        conclusion,
                    ).0.check_runs);
                }
                Ok(())
            },
        }
    }

    /// The workflow runs observed for `sha`, as (id, status) pairs.
    #[verifier::loop_isolation(false)]
    pub fn runs_for_commit(&self, sha: &String) -> (r: Vec<(u64, WorkflowRunStatus)>)
        ensures
            r@ == spec_runs_for_commit(self@.workflow_runs, sha@),
    {
        let mut r: Vec<(u64, WorkflowRunStatus)> = Vec::new();
        let mut i: usize = 0;
        while i < self.workflow_runs.len()
            invariant
                i <= self.workflow_runs.len(),
                r@ == spec_runs_for_commit(self@.workflow_runs.take(i as int), sha@),
            decreases self.workflow_runs.len() - i,
        {
            proof {
                assert(self@.workflow_runs.take(i + 1).drop_last() =~= self@.workflow_runs.take(
                    i as int,
                ));
                assert(self@.workflow_runs.take(i + 1).last() == self@.workflow_runs[i as int]);
            }
            if self.workflow_runs[i].head_sha == *sha {
                r.push((self.workflow_runs[i].id, self.workflow_runs[i].status));
            }
            proof {
                assert(r@ =~= spec_runs_for_commit(
                    self@.workflow_runs.take(i as int + 1),
                    sha@,
                ));
            }
            i += 1;
        }
        proof {
            assert(self@.workflow_runs.take(self.workflow_runs.len() as int)
                =~= self@.workflow_runs);
        }
        r
    }

    /// Cancel every workflow run whose id is in `ids`.
    #[verifier::loop_isolation(false)]
    pub fn cancel_workflows(&mut self, ids: &Vec<u64>)
        ensures
            final(self)@ == spec_cancel_workflows(old(self)@, ids@),
    {
        let ghost target = spec_cancel_workflows(old(self)@, ids@);
        let mut i: usize = 0;
        while i < self.workflow_runs.len()
            invariant
                i <= self.workflow_runs.len(),
                self.workflow_runs.len() == old(self).workflow_runs.len(),
                target.workflow_runs.len() == old(self)@.workflow_runs.len(),
                forall|j: int|
                    i <= j < self.workflow_runs.len() ==> #[trigger] self@.workflow_runs[j] == old(
                        self,
                    )@.workflow_runs[j],
                forall|j: int|
                    0 <= j < i ==> #[trigger] self@.workflow_runs[j] == target.workflow_runs[j],
                self@.branches == old(self)@.branches,
                self@.prs == old(self)@.prs,
                self@.check_runs == old(self)@.check_runs,
                self@.comments == old(self)@.comments,
                self@.merge_parents == old(self)@.merge_parents,
                self@.next_check_run_id == old(self)@.next_check_run_id,
                self@.merge_counter == old(self)@.merge_counter,
                self@.push_failures == old(self)@.push_failures,
                self@.validation_failures == old(self)@.validation_failures,
                self@.check_run_failure == old(self)@.check_run_failure,
                self@.merge_failure == old(self)@.merge_failure,
            decreases self.workflow_runs.len() - i,
        {
            let ghost prev_vec = self.workflow_runs@;
            let ghost prev_deep = self@.workflow_runs;
            let cancel = contains_u64(ids, self.workflow_runs[i].id);
            proof {
                assert(self@.workflow_runs[i as int] == old(self)@.workflow_runs[i as int]);
                assert(cancel == ids@.contains(old(self)@.workflow_runs[i as int].id));
                assert(target.workflow_runs[i as int] == (if ids@.contains(old(
                    self,
                )@.workflow_runs[i as int].id) {
                    WorkflowRunV {
                        status: WorkflowRunStatus::Cancelled,
                        ..old(self)@.workflow_runs[i as int]
                    }
                } else {
                    old(self)@.workflow_runs[i as int]
                }));
            }
            if cancel {
                self.workflow_runs[i].status = WorkflowRunStatus::Cancelled;
            }
            proof {
                assert forall|j: int|
                    0 <= j < self@.workflow_runs.len() && j != i implies #[trigger] self@.workflow_runs[j]
                    == prev_deep[j] by {
                    assert(self.workflow_runs@[j] == prev_vec[j]);
                }
                assert(self@.workflow_runs[i as int] =~= target.workflow_runs[i as int]);
            }
            i += 1;
        }
        proof {
            assert(self@.workflow_runs =~~= target.workflow_runs);
            assert(self@ =~~= target);
        }
    }
}

} // verus!
