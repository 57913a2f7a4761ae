//! A branch of a repository.

use vstd::prelude::*;

verus! {

/// One branch, local or remote-tracking.
#[derive(Debug, Clone)]
pub struct BranchInfo {
    pub name: String,
    pub is_current: bool,
    pub is_remote: bool,
    /// The name of the remote-tracking branch that this branch follows, if any.
    pub upstream: Option<String>,
    pub ahead: i32,
    pub behind: i32,
    pub last_commit_hash: Option<String>,
}

impl BranchInfo {
    /// A branch of which only the name is known: not current, not remote, without
    /// upstream or commit, level with whatever it is compared to.
    pub fn new(name: String) -> (info: Self)
        ensures
            info.name == name,
            !info.is_current,
            !info.is_remote,
            info.upstream is None,
            info.ahead == 0,
            info.behind == 0,
            info.last_commit_hash is None,
    {
        Self {
            name,
            is_current: false,
            is_remote: false,
            upstream: None,
            ahead: 0,
            behind: 0,
            last_commit_hash: None,
        }
    }
}

} // verus!
