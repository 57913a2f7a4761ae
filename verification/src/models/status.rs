//! The state of a working tree.

use vstd::prelude::*;

verus! {

/// The state of one working tree: clean, or the files that differ.
#[derive(Debug, Clone)]
pub struct RepoStatus {
    pub path: String,
    /// True exactly when `files` is empty.
    pub is_clean: bool,
    pub files: Vec<FileStatus>,
}

/// One file that differs from the last commit.
#[derive(Debug, Clone)]
pub struct FileStatus {
    pub path: String,
    pub status: FileStatusKind,
}

/// How a file differs from the last commit.
#[derive(Debug, Clone, Copy, PartialEq, Eq, Structural)]
pub enum FileStatusKind {
    Modified,
    Added,
    Deleted,
    Renamed,
    Copied,
    Untracked,
    Conflicted,
}

impl FileStatusKind {
    /// The name of the kind, as text.
    pub open spec fn spec_name(&self) -> Seq<char> {
        match self {
            Self::Modified => "Modified"@,
            Self::Added => "Added"@,
            Self::Deleted => "Deleted"@,
            Self::Renamed => "Renamed"@,
            Self::Copied => "Copied"@,
            Self::Untracked => "Untracked"@,
            Self::Conflicted => "Conflicted"@,
        }
    }

    /// The name of the kind.
    pub fn as_str(&self) -> (s: &str)
        ensures
            s@ == self.spec_name(),
    {
        match self {
            Self::Modified => "Modified",
            Self::Added => "Added",
            Self::Deleted => "Deleted",
            Self::Renamed => "Renamed",
            Self::Copied => "Copied",
            Self::Untracked => "Untracked",
            Self::Conflicted => "Conflicted",
        }
    }
}

impl RepoStatus {
    /// The invariant of a status: it is clean exactly when no file differs.
    pub open spec fn wf(&self) -> bool {
        self.is_clean <==> self.files@.len() == 0
    }
}

} // verus!
