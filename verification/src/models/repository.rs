//! The aggregate view of one repository.

use vstd::prelude::*;
use super::status::FileStatus;

verus! {

/// Everything the library reports about one repository in a single value.
#[derive(Debug, Clone)]
pub struct RepositoryInfo {
    pub path: String,
    /// The last segment of `path`.
    pub name: String,
    /// Absent where `HEAD` is detached or the repository has no commit.
    pub current_branch: Option<String>,
    pub is_dirty: bool,
    /// Changed files that are not untracked.
    pub uncommitted_changes: i32,
    pub untracked_files: i32,
    pub unpushed_commits: i32,
    /// Commits of the local branch that its upstream lacks; 0 without upstream.
    pub ahead: i32,
    /// Commits of the upstream that the local branch lacks; 0 without upstream.
    pub behind: i32,
    pub last_commit: Option<CommitInfo>,
    pub files: Vec<FileStatus>,
}

/// The summary of one commit.
#[derive(Debug, Clone)]
pub struct CommitInfo {
    pub hash: String,
    /// The first seven characters of `hash`.
    pub short_hash: String,
    pub message: String,
    pub author: String,
    pub email: String,
    /// Seconds since the Unix epoch.
    pub timestamp: i64,
}

impl RepositoryInfo {
    /// The information on a repository of which only path and name are known:
    /// clean, without branch, commit or files, level with its upstream.
    pub fn new(path: String, name: String) -> (info: Self)
        ensures
            info.path == path,
            info.name == name,
            info.current_branch is None,
            !info.is_dirty,
            info.uncommitted_changes == 0,
            info.untracked_files == 0,
            info.unpushed_commits == 0,
            info.ahead == 0,
            info.behind == 0,
            info.last_commit is None,
            info.files@.len() == 0,
    {
        Self {
            path,
            name,
            current_branch: None,
            is_dirty: false,
            uncommitted_changes: 0,
            untracked_files: 0,
            unpushed_commits: 0,
            ahead: 0,
            behind: 0,
            last_commit: None,
            files: Vec::new(),
        }
    }
}

} // verus!
