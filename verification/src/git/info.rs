//! Putting the aggregate view of a repository together from its parts.

use vstd::prelude::*;
use crate::error::GitError;
use crate::git::backend::CommitFields;
use crate::git::status::{
    clamp_count, lemma_untracked_count_bound, spec_all_derived, spec_clamp, spec_untracked_count,
    untracked_count,
};
use crate::utils::path::spec_repo_name;
use crate::models::commit::{short_hash, spec_short_hash};
use crate::models::repository::{CommitInfo, RepositoryInfo};
use crate::models::status::RepoStatus;

verus! {

/// The text held by `o`, or the empty text.
pub open spec fn spec_or_empty(o: Option<String>) -> Seq<char> {
    match o {
        Some(s) => s@,
        None => Seq::<char>::empty(),
    }
}

/// Computes [`spec_or_empty`].
fn or_empty(o: Option<String>) -> (s: String)
    ensures
        s@ == spec_or_empty(o),
{
    match o {
        Some(s) => s,
        None => String::new(),
    }
}

/// The summary of a commit: its fields, an absent text counting as empty, and
/// the short form of its hash.
pub fn commit_info(fields: CommitFields) -> (info: CommitInfo)
    ensures
        info.hash@ == fields.id@,
        info.short_hash@ == spec_short_hash(fields.id@),
        info.message@ == spec_or_empty(fields.message),
        info.author@ == spec_or_empty(fields.author),
        info.email@ == spec_or_empty(fields.email),
        info.timestamp == fields.seconds,
{
    let short = short_hash(fields.id.as_str());
    CommitInfo {
        hash: fields.id,
        short_hash: short,
        message: or_empty(fields.message),
        author: or_empty(fields.author),
        email: or_empty(fields.email),
        timestamp: fields.seconds,
    }
}

/// How far two branches are apart, as `i32` counts.
pub fn ahead_behind_counts(ahead: usize, behind: usize) -> (r: (i32, i32))
    ensures
        r.0 == spec_clamp(ahead as nat),
        r.1 == spec_clamp(behind as nat),
        r.0 >= 0,
        r.1 >= 0,
{
    (clamp_count(ahead), clamp_count(behind))
}

impl RepositoryInfo {
    /// What holds of every aggregate view that this library hands out: it is
    /// dirty exactly when files differ; the untracked files and the other
    /// changes are counted apart; and the unpushed commits are the commits
    /// ahead.
    pub open spec fn consistent(&self) -> bool {
        &&& self.is_dirty <==> self.files@.len() > 0
        &&& self.untracked_files == spec_clamp(spec_untracked_count(self.files@))
        &&& self.uncommitted_changes == spec_clamp(
            (self.files@.len() - spec_untracked_count(self.files@)) as nat,
        )
        &&& self.unpushed_commits == self.ahead
    }

    /// What holds of the aggregate view of the repository opened at `path`: it
    /// names the path and its last component, it is [`consistent`], its files
    /// have kinds that a status gives, its counts against the upstream are not
    /// negative, and the short hash of its last commit is that of the hash.
    ///
    /// [`consistent`]: RepositoryInfo::consistent
    pub open spec fn describes(&self, path: Seq<char>) -> bool {
        &&& self.path@ == path
        &&& self.name@ == spec_repo_name(path)
        &&& self.consistent()
        &&& spec_all_derived(self.files@)
        &&& self.last_commit matches Some(commit) ==> commit.short_hash@ == spec_short_hash(
            commit.hash@,
        )
        &&& self.ahead >= 0
        &&& self.behind >= 0
    }
}

/// The branch that a view reports, given how the question for it ended: the
/// branch where there is one, and none where the question failed.
pub open spec fn spec_branch_field(branch: Result<String, GitError>) -> Option<String> {
    match branch {
        Ok(name) => Some(name),
        Err(_) => None,
    }
}

/// The distance to the upstream that a view reports, given how the question
/// for it ended: the counts where there are any, and 0 ahead and 0 behind where
/// the question failed, as it does for a branch without upstream.
pub open spec fn spec_distance_fields(distance: Result<(i32, i32), GitError>) -> (i32, i32) {
    match distance {
        Ok(counts) => counts,
        Err(_) => (0i32, 0i32),
    }
}

/// A repository whose branch has no upstream counts as level with it: where
/// the question for the distance fails with `NoRemote`, the view reports 0
/// ahead and 0 behind.
pub proof fn law_without_upstream_is_level(distance: Result<(i32, i32), GitError>)
    requires
        distance matches Err(e) && e is NoRemote,
    ensures
        spec_distance_fields(distance) == (0i32, 0i32),
{
}

/// The aggregate view of the repository at `path`, put together from its
/// parts.
///
/// Only the status is needed. A part that could not be had leaves its field
/// empty instead of failing the whole: a failed question for the branch
/// (detached `HEAD`, no commit) gives no current branch, no `last_commit` gives
/// none, and a failed question for the distance to the upstream (no upstream
/// among the reasons) gives 0 ahead and 0 behind.
pub fn assemble_info(
    path: String,
    name: String,
    branch: Result<String, GitError>,
    status: RepoStatus,
    last_commit: Option<CommitInfo>,
    distance: Result<(i32, i32), GitError>,
) -> (info: RepositoryInfo)
    ensures
        info.path == path,
        info.name == name,
        info.current_branch == spec_branch_field(branch),
        info.files == status.files,
        info.last_commit == last_commit,
        info.ahead == spec_distance_fields(distance).0,
        info.behind == spec_distance_fields(distance).1,
        distance is Err ==> info.ahead == 0 && info.behind == 0 && info.unpushed_commits == 0,
        info.consistent(),
{
    let untracked = untracked_count(&status.files);
    proof {
        lemma_untracked_count_bound(status.files@);
    }
    let changed = status.files.len() - untracked;
    let (ahead, behind) = match distance {
        Ok(counts) => counts,
        Err(_) => (0, 0),
    };
    let current_branch = match branch {
        Ok(name) => Some(name),
        Err(_) => None,
    };
    RepositoryInfo {
        path,
        name,
        current_branch,
        is_dirty: status.files.len() > 0,
        uncommitted_changes: clamp_count(changed),
        untracked_files: clamp_count(untracked),
        unpushed_commits: ahead,
        ahead,
        behind,
        last_commit,
        files: status.files,
    }
}

} // verus!
