//! The comments the bot posts on pull requests.

use vstd::prelude::*;
use vstd::string::StringExecFns;
use crate::store::{Workflow, WorkflowV};

verus! {

/// The approver as rendered, `<unknown>` when absent.
pub open spec fn approver_text(a: Option<Seq<char>>) -> Seq<char> {
    match a {
        Some(s) => s,
        None => "<unknown>"@,
    }
}

/// A workflow as a Markdown link.
pub open spec fn workflow_link_text(w: WorkflowV) -> Seq<char> {
    "["@ + w.name + "]("@ + w.url + ")"@
}

/// The links for the workflows of one build, in order.
pub open spec fn workflow_links_text(ws: Seq<WorkflowV>, build_id: u64) -> Seq<Seq<char>>
    decreases ws.len(),
{
    if ws.len() == 0 {
        Seq::empty()
    } else {
        workflow_links_text(ws.drop_last(), build_id) + (if ws.last().build_id == build_id {
            seq![workflow_link_text(ws.last())]
        } else {
            Seq::empty()
        })
    }
}

/// The pieces joined with a comma and a space.
pub open spec fn join_comma(items: Seq<Seq<char>>) -> Seq<char>
    decreases items.len(),
{
    if items.len() == 0 {
        Seq::empty()
    } else if items.len() == 1 {
        items[0]
    } else {
        join_comma(items.drop_last()) + ", "@ + items.last()
    }
}

/// The comment posted when an auto build starts.
pub open spec fn auto_build_started_text(head: Seq<char>, merge: Seq<char>) -> Seq<char> {
    ":hourglass: Testing commit "@ + head + " with merge "@ + merge + "..."@
}

/// The comment posted when an auto build succeeded.
pub open spec fn auto_build_succeeded_text(
    ws: Seq<WorkflowV>,
    build_id: u64,
    approver: Option<Seq<char>>,
    merge: Seq<char>,
    base: Seq<char>,
) -> Seq<char> {
    ":sunny: Test successful - "@ + join_comma(workflow_links_text(ws, build_id))
        + "\nApproved by: `"@ + approver_text(approver) + "`\nPushing "@ + merge + " to `"@ + base
        + "`..."@
}

/// The comment posted when the fast-forward after a successful build
/// failed.
pub open spec fn auto_build_push_failed_text(error: Seq<char>) -> Seq<char> {
    ":eyes: Test was successful, but fast-forwarding failed: "@ + error
}

/// The comment posted when the trial merge hits a conflict.
pub open spec fn merge_conflict_text(head: Seq<char>) -> Seq<char> {
    ":lock: Merge conflict: commit "@ + head + " does not merge cleanly into the base branch."@
}

/// The comment posted when pushing the merge commit to the CI branch
/// failed.
pub open spec fn push_to_auto_branch_failed_text(
    merge: Seq<char>,
    branch: Seq<char>,
    error: Seq<char>,
) -> Seq<char> {
    ":warning: Could not push merge commit "@ + merge + " to `"@ + branch + "`: "@ + error
}

/// The approver as rendered, `<unknown>` when absent.
pub fn approver_or_unknown(a: &Option<String>) -> (r: &str)
    ensures
        r@ == approver_text(a.deep_view()),
{
    match a {
        Some(s) => s.as_str(),
        None => "<unknown>",
    }
}

/// The Markdown links for the workflows of `build_id`, joined with
/// commas.
#[verifier::loop_isolation(false)]
fn workflow_links(workflows: &Vec<Workflow>, build_id: u64) -> (r: String)
    ensures
        r@ == join_comma(workflow_links_text(workflows.deep_view(), build_id)),
{
    let ghost ws = workflows.deep_view();
    let mut r = String::new();
    let mut any = false;
    let mut i: usize = 0;
    while i < workflows.len()
        invariant
            i <= workflows.len(),
            r@ == join_comma(workflow_links_text(ws.take(i as int), build_id)),
            any <==> workflow_links_text(ws.take(i as int), build_id).len() > 0,
        decreases workflows.len() - i,
    {
        proof {
            assert(ws.take(i as int + 1).drop_last() =~= ws.take(i as int));
            assert(ws.take(i as int + 1).last() == ws[i as int]);
        }
        if workflows[i].build_id == build_id {
            if any {
                r.append(", ");
            }
            r.append("[");
            r.append(workflows[i].name.as_str());
            r.append("](");
            r.append(workflows[i].url.as_str());
            r.append(")");
            any = true;
            proof {
                let items = workflow_links_text(ws.take(i as int), build_id);
                let new_items = workflow_links_text(ws.take(i as int + 1), build_id);
                assert(new_items =~= items.push(workflow_link_text(ws[i as int])));
                assert(new_items.drop_last() =~= items);
                if items.len() == 0 {
                    assert(r@ =~= join_comma(new_items));
                } else {
                    assert(r@ =~= join_comma(new_items));
                }
            }
        }
        i += 1;
    }
    proof {
        assert(ws.take(workflows.len() as int) =~= ws);
    }
    r
}

/// The comment posted when an auto build starts.
pub fn auto_build_started_comment(head_sha: &String, merge_sha: &String) -> (r: String)
    ensures
        r@ == auto_build_started_text(head_sha@, merge_sha@),
{
    let mut r = String::from_str(":hourglass: Testing commit ");
    r.append(head_sha.as_str());
    r.append(" with merge ");
    r.append(merge_sha.as_str());
    r.append("...");
    proof {
        assert(r@ =~= auto_build_started_text(head_sha@, merge_sha@));
    }
    r
}

/// The comment posted when an auto build succeeded: the workflows that
/// ran, the approver, and the push about to happen.
pub fn auto_build_succeeded_comment(
    workflows: &Vec<Workflow>,
    build_id: u64,
    approver: &Option<String>,
    merge_sha: &String,
    base_branch: &String,
) -> (r: String)
    ensures
        r@ == auto_build_succeeded_text(
            workflows.deep_view(),
            build_id,
            approver.deep_view(),
            merge_sha@,
            base_branch@,
        ),
{
    let mut r = String::from_str(":sunny: Test successful - ");
    let links = workflow_links(workflows, build_id);
    r.append(links.as_str());
    r.append("\nApproved by: `");
    r.append(approver_or_unknown(approver));
    r.append("`\nPushing ");
    r.append(merge_sha.as_str());
    r.append(" to `");
    r.append(base_branch.as_str());
    r.append("`...");
    proof {
        assert(r@ =~= auto_build_succeeded_text(
            workflows.deep_view(),
            build_id,
            approver.deep_view(),
            merge_sha@,
            base_branch@,
        ));
    }
    r
}

/// The comment posted when the fast-forward after a successful build
/// failed.
pub fn auto_build_push_failed_comment(error: &str) -> (r: String)
    ensures
        r@ == auto_build_push_failed_text(error@),
{
    let mut r = String::from_str(":eyes: Test was successful, but fast-forwarding failed: ");
    r.append(error);
    proof {
        assert(r@ =~= auto_build_push_failed_text(error@));
    }
    r
}

/// The comment posted when the trial merge hits a conflict.
pub fn merge_conflict_comment(head_sha: &str) -> (r: String)
    ensures
        r@ == merge_conflict_text(head_sha@),
{
    let mut r = String::from_str(":lock: Merge conflict: commit ");
    r.append(head_sha);
    r.append(" does not merge cleanly into the base branch.");
    proof {
        assert(r@ =~= merge_conflict_text(head_sha@));
    }
    r
}

/// The comment posted when pushing the merge commit to the CI branch
/// failed.
pub fn push_to_auto_branch_failed_comment(merge_sha: &String, branch: &str, error: &str) -> (r:
    String)
    ensures
        r@ == push_to_auto_branch_failed_text(merge_sha@, branch@, error@),
{
    let mut r = String::from_str(":warning: Could not push merge commit ");
    r.append(merge_sha.as_str());
    r.append(" to `");
    r.append(branch);
    r.append("`: ");
    r.append(error);
    proof {
        assert(r@ =~= push_to_auto_branch_failed_text(merge_sha@, branch@, error@));
    }
    r
}

} // verus!
