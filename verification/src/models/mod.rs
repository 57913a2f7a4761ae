//! Plain values that describe a repository, its commits, branches and changes.

pub mod branch;
pub mod commit;
pub mod diff;
pub mod repository;
pub mod status;

pub use branch::BranchInfo;
pub use commit::{Commit, CommitDetails, CommitStats};
pub use diff::{DiffHunk, DiffLine, DiffLineType, DiffStatus, FileDiff};
pub use repository::{CommitInfo, RepositoryInfo};
pub use status::{FileStatus, FileStatusKind, RepoStatus};
