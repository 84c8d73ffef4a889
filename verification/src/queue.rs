//! The sort policy: which eligible pull request leaves the merge queue
//! first. The ordering is lexicographic: pull requests with a
//! successful build, then those with a pending build, then those
//! without a build; then higher priority first; then rollup mode
//! (never, iffy, maybe, always); then lower number first.

use vstd::prelude::*;
use vstd::seq_lib::lemma_multiset_commutative;
use vstd::multiset::Multiset;
use crate::command::{Priority, RollupMode};
use crate::store::{BuildStatus, MergeableState, PullRequestModel, PullRequestStatus, PullRequestV};

verus! {

/// Rank of the build phase: a successful build first (it can be
/// fast-forwarded at once), then a pending build (it blocks the
/// queue), then no build.
pub open spec fn build_phase_rank(pr: PullRequestV) -> int {
    match pr.auto_build {
        Some(b) => if b.status == BuildStatus::Success {
            0
        } else if b.status == BuildStatus::Pending {
            1
        } else {
            2
        },
        None => 2,
    }
}

/// Effective priority: absent counts as zero.
pub open spec fn effective_priority(pr: PullRequestV) -> int {
    match pr.priority {
        Some(p) => p as int,
        None => 0,
    }
}

/// Rank of the rollup mode: a smaller rank merges sooner; an unset
/// mode counts as `maybe`.
pub open spec fn rollup_rank(pr: PullRequestV) -> int {
    match pr.rollup {
        Some(RollupMode::Never) => 0,
        Some(RollupMode::Iffy) => 1,
        Some(RollupMode::Maybe) => 2,
        Some(RollupMode::Always) => 3,
        None => 2,
    }
}

/// Whether `a` leaves the queue no later than `b`.
pub open spec fn queue_leq(a: PullRequestV, b: PullRequestV) -> bool {
    if build_phase_rank(a) != build_phase_rank(b) {
        build_phase_rank(a) < build_phase_rank(b)
    } else if effective_priority(a) != effective_priority(b) {
        effective_priority(a) > effective_priority(b)
    } else if rollup_rank(a) != rollup_rank(b) {
        rollup_rank(a) < rollup_rank(b)
    } else {
        a.number <= b.number
    }
}

/// The queue ordering is total.
pub proof fn lemma_queue_leq_total(a: PullRequestV, b: PullRequestV)
    ensures
        queue_leq(a, b) || queue_leq(b, a),
{
}

/// The queue ordering is transitive.
pub proof fn lemma_queue_leq_trans(a: PullRequestV, b: PullRequestV, c: PullRequestV)
    ensures
        queue_leq(a, b) && queue_leq(b, c) ==> queue_leq(a, c),
{
}

/// Whether the store would hand this pull request to the merge queue:
/// approved, not known to conflict, priority at or above the tree's
/// threshold, and without a failed, cancelled or timed-out build.
pub open spec fn eligible(pr: PullRequestV, min_priority: Priority) -> bool {
    &&& pr.status == PullRequestStatus::Approved
    &&& pr.mergeable_state != MergeableState::HasConflicts
    &&& effective_priority(pr) >= min_priority as int
    &&& match pr.auto_build {
        None => true,
        Some(b) => b.status == BuildStatus::Pending || b.status == BuildStatus::Success,
    }
}

/// The first `n` indices of `prs` that are eligible, in order.
pub open spec fn eligible_idxs(prs: Seq<PullRequestV>, min_priority: Priority, n: int) -> Seq<
    usize,
>
    decreases n,
{
    if n <= 0 {
        Seq::empty()
    } else {
        eligible_idxs(prs, min_priority, n - 1) + (if eligible(prs[n - 1], min_priority) {
            seq![(n - 1) as usize]
        } else {
            Seq::empty()
        })
    }
}

/// The queue head among the first `n` pull requests: the eligible one
/// that `queue_leq` places first, earlier index winning ties.
pub open spec fn queue_head_upto(prs: Seq<PullRequestV>, min_priority: Priority, n: int) -> Option<
    usize,
>
    decreases n,
{
    if n <= 0 {
        None
    } else {
        let rest = queue_head_upto(prs, min_priority, n - 1);
        if !eligible(prs[n - 1], min_priority) {
            rest
        } else {
            match rest {
                None => Some((n - 1) as usize),
                Some(m) => if queue_leq(prs[m as int], prs[n - 1]) {
                    Some(m)
                } else {
                    Some((n - 1) as usize)
                },
            }
        }
    }
}

/// The queue head of the whole store.
pub open spec fn spec_queue_head(prs: Seq<PullRequestV>, min_priority: Priority) -> Option<usize> {
    queue_head_upto(prs, min_priority, prs.len() as int)
}

/// The queue head is an eligible index, and no eligible index is
/// ordered before it.
pub proof fn lemma_queue_head_upto(prs: Seq<PullRequestV>, min_priority: Priority, n: int)
    requires
        n <= prs.len(),
        n <= usize::MAX,
    ensures
        queue_head_upto(prs, min_priority, n) matches Some(m) ==> m < n && eligible(
            prs[m as int],
            min_priority,
        ) && (forall|j: int|
            0 <= j < n && eligible(#[trigger] prs[j], min_priority) ==> queue_leq(
                prs[m as int],
                prs[j],
            )),
        queue_head_upto(prs, min_priority, n) is None ==> (forall|j: int|
            0 <= j < n ==> !eligible(#[trigger] prs[j], min_priority)),
    decreases n,
{
    if n > 0 {
        lemma_queue_head_upto(prs, min_priority, n - 1);
        let rest = queue_head_upto(prs, min_priority, n - 1);
        let cur = queue_head_upto(prs, min_priority, n);
        if eligible(prs[n - 1], min_priority) {
            match rest {
                None => {
                    assert(cur == Some((n - 1) as usize));
                },
                Some(m0) => {
                    lemma_queue_leq_total(prs[m0 as int], prs[n - 1]);
                    if queue_leq(prs[m0 as int], prs[n - 1]) {
                        assert(cur == Some(m0));
                        assert forall|j: int|
                            0 <= j < n && eligible(#[trigger] prs[j], min_priority) implies
                            queue_leq(prs[m0 as int], prs[j]) by {}
                    } else {
                        assert(cur == Some((n - 1) as usize));
                        assert forall|j: int|
                            0 <= j < n && eligible(#[trigger] prs[j], min_priority) implies
                            queue_leq(prs[n - 1], prs[j]) by {
                            if j < n - 1 {
                                lemma_queue_leq_trans(prs[n - 1], prs[m0 as int], prs[j]);
                            }
                        }
                    }
                },
            }
        }
    }
}

/// Rank of the build phase, executable.
fn build_phase(pr: &PullRequestModel) -> (r: u32)
    ensures
        r == build_phase_rank(pr@),
{
    match &pr.auto_build {
        Some(b) => match b.status {
            BuildStatus::Success => 0,
            BuildStatus::Pending => 1,
            _ => 2,
        },
        None => 2,
    }
}

/// Effective priority, executable.
fn priority_of(pr: &PullRequestModel) -> (r: Priority)
    ensures
        r == effective_priority(pr@),
{
    match pr.priority {
        Some(p) => p,
        None => 0,
    }
}

/// Rank of the rollup mode, executable.
fn rollup_of(pr: &PullRequestModel) -> (r: u32)
    ensures
        r == rollup_rank(pr@),
{
    match pr.rollup {
        Some(RollupMode::Never) => 0,
        Some(RollupMode::Iffy) => 1,
        Some(RollupMode::Maybe) => 2,
        Some(RollupMode::Always) => 3,
        None => 2,
    }
}

/// Whether `a` leaves the queue no later than `b`.
pub fn queue_before(a: &PullRequestModel, b: &PullRequestModel) -> (r: bool)
    ensures
        r == queue_leq(a@, b@),
{
    let pa = build_phase(a);
    let pb = build_phase(b);
    if pa != pb {
        return pa < pb;
    }
    let ra = priority_of(a);
    let rb = priority_of(b);
    if ra != rb {
        return ra > rb;
    }
    let ua = rollup_of(a);
    let ub = rollup_of(b);
    if ua != ub {
        return ua < ub;
    }
    a.number <= b.number
}

/// Whether the store would hand this pull request to the merge queue.
pub fn is_eligible(pr: &PullRequestModel, min_priority: Priority) -> (r: bool)
    ensures
        r == eligible(pr@, min_priority),
{
    if !(pr.status == PullRequestStatus::Approved) {
        return false;
    }
    if pr.mergeable_state == MergeableState::HasConflicts {
        return false;
    }
    if priority_of(pr) < min_priority {
        return false;
    }
    match &pr.auto_build {
        None => true,
        Some(b) => b.status == BuildStatus::Pending || b.status == BuildStatus::Success,
    }
}

/// The indices of the merge-queue-eligible pull requests, in order.
#[verifier::loop_isolation(false)]
pub fn merge_queue_prs(prs: &Vec<PullRequestModel>, min_priority: Priority) -> (r: Vec<usize>)
    ensures
        r@ == eligible_idxs(prs.deep_view(), min_priority, prs.len() as int),
{
    let mut r: Vec<usize> = Vec::new();
    let mut i: usize = 0;
    while i < prs.len()
        invariant
            i <= prs.len(),
            r@ == eligible_idxs(prs.deep_view(), min_priority, i as int),
        decreases prs.len() - i,
    {
        if is_eligible(&prs[i], min_priority) {
            r.push(i);
        }
        proof {
            assert(r@ =~= eligible_idxs(prs.deep_view(), min_priority, i as int + 1));
        }
        i += 1;
    }
    r
}

/// The index of the pull request the queue works on next, if any.
#[verifier::loop_isolation(false)]
pub fn queue_head(prs: &Vec<PullRequestModel>, min_priority: Priority) -> (r: Option<usize>)
    ensures
        r == spec_queue_head(prs.deep_view(), min_priority),
{
    let mut best: Option<usize> = None;
    let mut i: usize = 0;
    while i < prs.len()
        invariant
            i <= prs.len(),
            best == queue_head_upto(prs.deep_view(), min_priority, i as int),
            best matches Some(m) ==> m < i,
        decreases prs.len() - i,
    {
        if is_eligible(&prs[i], min_priority) {
            best = match best {
                None => Some(i),
                Some(m) => {
                    if queue_before(&prs[m], &prs[i]) {
                        Some(m)
                    } else {
                        Some(i)
                    }
                },
            };
        }
        i += 1;
    }
    best
}

/// Where `x` goes in a queue-ordered list: after every index ordered
/// no later than it.
pub open spec fn insert_sorted(prs: Seq<PullRequestV>, s: Seq<usize>, x: usize) -> Seq<usize>
    decreases s.len(),
{
    if s.len() == 0 {
        seq![x]
    } else if queue_leq(prs[s[0] as int], prs[x as int]) {
        seq![s[0]] + insert_sorted(prs, s.drop_first(), x)
    } else {
        seq![x] + s
    }
}

/// The queue-ordered permutation of the first `n` indices of `idxs`.
pub open spec fn sort_spec(prs: Seq<PullRequestV>, idxs: Seq<usize>, n: int) -> Seq<usize>
    decreases n,
{
    if n <= 0 {
        Seq::empty()
    } else {
        insert_sorted(prs, sort_spec(prs, idxs, n - 1), idxs[n - 1])
    }
}

/// Inserting keeps the multiset of indices, adding `x`.
pub proof fn lemma_insert_sorted_multiset(prs: Seq<PullRequestV>, s: Seq<usize>, x: usize)
    ensures
        insert_sorted(prs, s, x).to_multiset() == s.to_multiset().insert(x),
    decreases s.len(),
{
    broadcast use vstd::seq_lib::group_to_multiset_ensures;

    if s.len() == 0 {
        assert(insert_sorted(prs, s, x) =~= Seq::empty().push(x));
        assert(Seq::<usize>::empty().push(x).to_multiset() =~= s.to_multiset().insert(x));
    } else if queue_leq(prs[s[0] as int], prs[x as int]) {
        lemma_insert_sorted_multiset(prs, s.drop_first(), x);
        lemma_multiset_commutative(seq![s[0]], insert_sorted(prs, s.drop_first(), x));
        lemma_multiset_commutative(seq![s[0]], s.drop_first());
        assert(seq![s[0]] + s.drop_first() =~= s);
        assert(seq![s[0]].to_multiset() =~= Multiset::empty().insert(s[0]));
        assert(insert_sorted(prs, s, x).to_multiset() =~= s.to_multiset().insert(x));
    } else {
        lemma_multiset_commutative(seq![x], s);
        assert(seq![x].to_multiset() =~= Multiset::empty().insert(x));
        assert(insert_sorted(prs, s, x).to_multiset() =~= s.to_multiset().insert(x));
    }
}

/// Whether the indices in `s` are in queue order.
pub open spec fn idx_sorted(prs: Seq<PullRequestV>, s: Seq<usize>) -> bool {
    forall|i: int, j: int|
        0 <= i < j < s.len() ==> queue_leq(prs[#[trigger] s[i] as int], prs[#[trigger] s[j] as int])
}

/// Inserting into a queue-ordered list keeps it queue-ordered.
pub proof fn lemma_insert_sorted_sorted(prs: Seq<PullRequestV>, s: Seq<usize>, x: usize)
    requires
        idx_sorted(prs, s),
    ensures
        idx_sorted(prs, insert_sorted(prs, s, x)),
    decreases s.len(),
{
    if s.len() == 0 {
    } else if queue_leq(prs[s[0] as int], prs[x as int]) {
        assert(idx_sorted(prs, s.drop_first()));
        lemma_insert_sorted_sorted(prs, s.drop_first(), x);
        let t = insert_sorted(prs, s.drop_first(), x);
        let r = seq![s[0]] + t;
        assert forall|i: int, j: int| 0 <= i < j < r.len() implies queue_leq(
            prs[#[trigger] r[i] as int],
            prs[#[trigger] r[j] as int],
        ) by {
            if i == 0 {
                lemma_insert_sorted_in(prs, s.drop_first(), x, j - 1);
                let e = r[j];
                assert(e == t[j - 1]);
                if e == x {
                } else {
                    assert(s.drop_first().contains(e));
                    let q = choose|q: int|
                        0 <= q < s.drop_first().len() && s.drop_first()[q] == e;
                    assert(s[q + 1] == e);
                    assert(queue_leq(prs[s[0] as int], prs[s[q + 1] as int]));
                }
            } else {
                assert(r[i] == t[i - 1]);
                assert(r[j] == t[j - 1]);
            }
        }
    } else {
        lemma_queue_leq_total(prs[s[0] as int], prs[x as int]);
        let r = seq![x] + s;
        assert forall|i: int, j: int| 0 <= i < j < r.len() implies queue_leq(
            prs[#[trigger] r[i] as int],
            prs[#[trigger] r[j] as int],
        ) by {
            if i == 0 && j > 1 {
                lemma_queue_leq_trans(prs[x as int], prs[s[0] as int], prs[r[j] as int]);
            }
        }
    }
}

/// Every element of an inserted list is `x` or one of the old
/// elements.
proof fn lemma_insert_sorted_in(prs: Seq<PullRequestV>, s: Seq<usize>, x: usize, k: int)
    requires
        0 <= k < insert_sorted(prs, s, x).len(),
    ensures
        insert_sorted(prs, s, x)[k] == x || s.contains(insert_sorted(prs, s, x)[k]),
    decreases s.len(),
{
    if s.len() == 0 {
    } else if queue_leq(prs[s[0] as int], prs[x as int]) {
        if k == 0 {
            assert(s[0] == insert_sorted(prs, s, x)[0]);
        } else {
            lemma_insert_sorted_in(prs, s.drop_first(), x, k - 1);
            let e = insert_sorted(prs, s, x)[k];
            assert(e == insert_sorted(prs, s.drop_first(), x)[k - 1]);
            if e != x {
                let q = choose|q: int|
                    0 <= q < s.drop_first().len() && s.drop_first()[q] == e;
                assert(s[q + 1] == e);
            }
        }
    } else {
        if k > 0 {
            assert(insert_sorted(prs, s, x)[k] == s[k - 1]);
        }
    }
}

/// Sort a list of indices into `prs` into queue order (the sort
/// policy): the result is the queue-ordered permutation of `idxs`.
#[verifier::loop_isolation(false)]
pub fn sort_queue_prs(prs: &Vec<PullRequestModel>, idxs: &Vec<usize>) -> (r: Vec<usize>)
    requires
        forall|k: int| 0 <= k < idxs@.len() ==> #[trigger] idxs@[k] < prs@.len(),
    ensures
        r@ == sort_spec(prs.deep_view(), idxs@, idxs@.len() as int),
        r@.to_multiset() == idxs@.to_multiset(),
        idx_sorted(prs.deep_view(), r@),
{
    let ghost prs_v = prs.deep_view();
    let mut r: Vec<usize> = Vec::new();
    proof {
        assert(idxs@.take(0) =~= Seq::<usize>::empty());
        assert(r@.to_multiset() =~= idxs@.take(0).to_multiset());
    }
    let mut k: usize = 0;
    while k < idxs.len()
        invariant
            k <= idxs.len(),
            r@ == sort_spec(prs_v, idxs@, k as int),
            r@.to_multiset() == idxs@.take(k as int).to_multiset(),
            idx_sorted(prs_v, r@),
            forall|q: int| 0 <= q < r@.len() ==> #[trigger] r@[q] < prs@.len(),
        decreases idxs.len() - k,
    {
        broadcast use vstd::seq_lib::group_to_multiset_ensures;

        let x = idxs[k];
        let ghost pre = r@;
        let mut p: usize = 0;
        while p < r.len() && queue_before(&prs[r[p]], &prs[x])
            invariant
                p <= r.len(),
                r@ == pre,
                forall|q: int|
                    0 <= q < p ==> queue_leq(prs_v[#[trigger] r@[q] as int], prs_v[x as int]),
            decreases r.len() - p,
        {
            p += 1;
        }
        r.insert(p, x);
        proof {
            lemma_insert_position(prs_v, pre, x, p as int);
            assert(r@ =~= pre.take(p as int) + seq![x] + pre.skip(p as int));
            assert(r@ =~= insert_sorted(prs_v, pre, x));
            lemma_insert_sorted_sorted(prs_v, pre, x);
            lemma_insert_sorted_multiset(prs_v, pre, x);
            assert(idxs@.take(k as int).push(x) =~= idxs@.take(k as int + 1));
            assert(r@.to_multiset() =~= idxs@.take(k as int + 1).to_multiset());
        }
        k += 1;
    }
    proof {
        assert(idxs@.take(idxs@.len() as int) =~= idxs@);
    }
    r
}

/// Where the scan stops is where the specification inserts.
proof fn lemma_insert_position(prs: Seq<PullRequestV>, s: Seq<usize>, x: usize, p: int)
    requires
        0 <= p <= s.len(),
        forall|q: int| 0 <= q < p ==> queue_leq(prs[#[trigger] s[q] as int], prs[x as int]),
        p < s.len() ==> !queue_leq(prs[s[p] as int], prs[x as int]),
    ensures
        insert_sorted(prs, s, x) == s.take(p) + seq![x] + s.skip(p),
    decreases s.len(),
{
    if s.len() == 0 {
        assert(insert_sorted(prs, s, x) =~= s.take(p) + seq![x] + s.skip(p));
    } else if p == 0 {
        assert(!queue_leq(prs[s[0] as int], prs[x as int]));
        assert(insert_sorted(prs, s, x) =~= s.take(0) + seq![x] + s.skip(0));
    } else {
        assert(queue_leq(prs[s[0] as int], prs[x as int]));
        assert(forall|q: int|
            0 <= q < p - 1 ==> #[trigger] s.drop_first()[q] == s[q + 1]);
        lemma_insert_position(prs, s.drop_first(), x, p - 1);
        assert(insert_sorted(prs, s, x) =~= seq![s[0]] + (s.drop_first().take(p - 1) + seq![x]
            + s.drop_first().skip(p - 1)));
        assert(seq![s[0]] + s.drop_first().take(p - 1) =~= s.take(p));
        assert(s.drop_first().skip(p - 1) =~= s.skip(p));
        assert(insert_sorted(prs, s, x) =~= s.take(p) + seq![x] + s.skip(p));
    }
}

/// Sorting keeps exactly the indices it was given.
pub proof fn lemma_sort_spec_multiset(prs: Seq<PullRequestV>, idxs: Seq<usize>, n: int)
    requires
        0 <= n <= idxs.len(),
    ensures
        sort_spec(prs, idxs, n).to_multiset() == idxs.take(n).to_multiset(),
    decreases n,
{
    broadcast use vstd::seq_lib::group_to_multiset_ensures;

    if n <= 0 {
        assert(idxs.take(0) =~= Seq::<usize>::empty());
        assert(sort_spec(prs, idxs, 0).to_multiset() =~= idxs.take(0).to_multiset());
    } else {
        lemma_sort_spec_multiset(prs, idxs, n - 1);
        lemma_insert_sorted_multiset(prs, sort_spec(prs, idxs, n - 1), idxs[n - 1]);
        assert(idxs.take(n) =~= idxs.take(n - 1).push(idxs[n - 1]));
        assert(sort_spec(prs, idxs, n).to_multiset() =~= idxs.take(n).to_multiset());
    }
}

/// Sorting sorts.
pub proof fn lemma_sort_spec_sorted(prs: Seq<PullRequestV>, idxs: Seq<usize>, n: int)
    requires
        0 <= n <= idxs.len(),
    ensures
        idx_sorted(prs, sort_spec(prs, idxs, n)),
    decreases n,
{
    if n > 0 {
        lemma_sort_spec_sorted(prs, idxs, n - 1);
        lemma_insert_sorted_sorted(prs, sort_spec(prs, idxs, n - 1), idxs[n - 1]);
    }
}

/// The eligible index list holds exactly the eligible indices.
pub proof fn lemma_eligible_idxs_contains(
    prs: Seq<PullRequestV>,
    min_priority: Priority,
    n: int,
    x: usize,
)
    requires
        0 <= n <= prs.len(),
        n <= usize::MAX,
    ensures
        eligible_idxs(prs, min_priority, n).contains(x) <==> ((x as int) < n && eligible(
            prs[x as int],
            min_priority,
        )),
    decreases n,
{
    if n > 0 {
        lemma_eligible_idxs_contains(prs, min_priority, n - 1, x);
        let s = eligible_idxs(prs, min_priority, n - 1);
        let w = eligible_idxs(prs, min_priority, n);
        if eligible(prs[n - 1], min_priority) {
            assert(w =~= s.push((n - 1) as usize));
            if s.contains(x) {
                let q = choose|q: int| 0 <= q < s.len() && s[q] == x;
                assert(w[q] == x);
                assert(w.contains(x));
            }
            if x as int == n - 1 {
                assert(w[w.len() - 1] == x);
                assert(w.contains(x));
            }
            if w.contains(x) {
                let q = choose|q: int| 0 <= q < w.len() && w[q] == x;
                if q < s.len() {
                    assert(s[q] == x);
                    assert(s.contains(x));
                } else {
                    assert(x as int == n - 1);
                }
            }
        } else {
            assert(w =~= s);
        }
    }
}

/// Selecting the queue head is taking the first element of the
/// eligible queue sorted by the sort policy, as long as pull request
/// numbers are distinct.
pub proof fn lemma_head_is_sorted_first(prs: Seq<PullRequestV>, min_priority: Priority)
    requires
        prs.len() <= usize::MAX,
        forall|i: int, j: int|
            0 <= i < j < prs.len() ==> (#[trigger] prs[i]).number != (#[trigger] prs[j]).number,
    ensures
        ({
            let idxs = eligible_idxs(prs, min_priority, prs.len() as int);
            let sorted = sort_spec(prs, idxs, idxs.len() as int);
            &&& (spec_queue_head(prs, min_priority) is None <==> sorted.len() == 0)
            &&& (sorted.len() > 0 ==> spec_queue_head(prs, min_priority) == Some(sorted[0]))
        }),
{
    broadcast use vstd::seq_lib::group_to_multiset_ensures;

    let idxs = eligible_idxs(prs, min_priority, prs.len() as int);
    let sorted = sort_spec(prs, idxs, idxs.len() as int);
    assert(idxs.take(idxs.len() as int) =~= idxs);
    lemma_sort_spec_multiset(prs, idxs, idxs.len() as int);
    lemma_sort_spec_sorted(prs, idxs, idxs.len() as int);
    lemma_queue_head_upto(prs, min_priority, prs.len() as int);
    assert(sorted.to_multiset().len() == idxs.to_multiset().len());
    assert(sorted.len() == idxs.len());
    match spec_queue_head(prs, min_priority) {
        None => {
            if idxs.len() > 0 {
                lemma_eligible_idxs_contains(prs, min_priority, prs.len() as int, idxs[0]);
                assert(idxs.contains(idxs[0]));
            }
        },
        Some(h) => {
            lemma_eligible_idxs_contains(prs, min_priority, prs.len() as int, h);
            assert(idxs.contains(h));
            assert(idxs.to_multiset().contains(h));
            assert(sorted.to_multiset().contains(h));
            assert(sorted.contains(h));
            assert(sorted.len() > 0);
            let first = sorted[0];
            assert(sorted.to_multiset().contains(first));
            assert(idxs.contains(first));
            lemma_eligible_idxs_contains(prs, min_priority, prs.len() as int, first);
            assert(eligible(prs[first as int], min_priority));
            assert(queue_leq(prs[h as int], prs[first as int]));
            if first != h {
                let p = choose|p: int| 0 <= p < sorted.len() && sorted[p] == h;
                if p > 0 {
                    assert(queue_leq(prs[sorted[0] as int], prs[sorted[p] as int]));
                }
                assert(queue_leq(prs[first as int], prs[h as int]));
                assert(prs[h as int].number == prs[first as int].number);
                assert(false);
            }
        },
    }
}

} // verus!
