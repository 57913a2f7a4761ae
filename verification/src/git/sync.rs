//! The decisions of synchronisation: what is pushed and fetched under which
//! name, and what a pull does with what it fetched.

use vstd::prelude::*;
use crate::git::backend::MergeOutlook;
use crate::text::concat;

verus! {

/// The remote that every operation talks to.
pub const REMOTE_NAME: &'static str = "origin";

/// The local reference of the branch called `branch`.
pub open spec fn spec_branch_ref(branch: Seq<char>) -> Seq<char> {
    "refs/heads/"@ + branch
}

/// The refspec that pushes a branch to the branch of the same name.
pub open spec fn spec_push_refspec(branch: Seq<char>) -> Seq<char> {
    spec_branch_ref(branch) + ":"@ + spec_branch_ref(branch)
}

/// The refspec that fetches a branch into its remote-tracking reference,
/// whether or not that is a fast-forward.
pub open spec fn spec_pull_refspec(branch: Seq<char>) -> Seq<char> {
    "+"@ + spec_branch_ref(branch) + ":refs/remotes/origin/"@ + branch
}

/// Computes [`spec_branch_ref`].
pub fn branch_ref(branch: &str) -> (out: String)
    ensures
        out@ == spec_branch_ref(branch@),
{
    concat("refs/heads/", branch)
}

/// Computes [`spec_push_refspec`].
pub fn push_refspec(branch: &str) -> (out: String)
    ensures
        out@ == spec_push_refspec(branch@),
{
    let mut out = branch_ref(branch);
    out.append(":");
    out.append(branch_ref(branch).as_str());
    out
}

/// Computes [`spec_pull_refspec`].
pub fn pull_refspec(branch: &str) -> (out: String)
    ensures
        out@ == spec_pull_refspec(branch@),
{
    let mut out = concat("+", branch_ref(branch).as_str());
    out.append(":refs/remotes/origin/");
    out.append(branch);
    out
}

/// What the error says where there is no branch to push or pull.
pub open spec fn spec_no_branch_message() -> Seq<char> {
    "No branch name"@
}

/// What the error says where a pull is refused because it would need a merge.
pub open spec fn spec_merge_needed_message() -> Seq<char> {
    "Pull requires merge, not implemented yet"@
}

/// What a pull does once the remote commit is fetched.
#[derive(Debug, Clone, Copy, PartialEq, Eq, Structural)]
pub enum PullAction {
    /// The local branch already holds the fetched commit: nothing changes.
    Nothing,
    /// The local branch is an ancestor of the fetched commit: the branch moves
    /// to it and the working tree follows.
    FastForward,
    /// The two have diverged: the pull is refused and nothing changes.
    Refuse,
}

/// The action for a merge analysis. Being up to date counts before anything
/// else; a fast-forward is taken where there is one; every other case would
/// need a real merge and is refused.
pub open spec fn spec_pull_action(outlook: MergeOutlook) -> PullAction {
    if outlook.up_to_date {
        PullAction::Nothing
    } else if outlook.fast_forward {
        PullAction::FastForward
    } else {
        PullAction::Refuse
    }
}

/// Computes [`spec_pull_action`].
pub fn pull_action(outlook: MergeOutlook) -> (action: PullAction)
    ensures
        action == spec_pull_action(outlook),
{
    if outlook.up_to_date {
        PullAction::Nothing
    } else if outlook.fast_forward {
        PullAction::FastForward
    } else {
        PullAction::Refuse
    }
}

} // verus!
