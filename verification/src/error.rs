//! The error type shared by every operation of the crate.

use vstd::prelude::*;
use crate::text::concat;

verus! {

/// `git2::Error`, carried through as an opaque value.
#[verifier::external_type_specification]
#[verifier::external_body]
pub struct ExGit2Error(git2::Error);

/// `std::io::Error`, carried through as an opaque value.
#[verifier::external_type_specification]
#[verifier::external_body]
pub struct ExIoError(std::io::Error);

/// `std::str::Utf8Error`, carried through as an opaque value.
#[verifier::external_type_specification]
#[verifier::external_body]
pub struct ExUtf8Error(std::str::Utf8Error);

/// `std::string::FromUtf8Error`, carried through as an opaque value.
#[verifier::external_type_specification]
#[verifier::external_body]
pub struct ExFromUtf8Error(std::string::FromUtf8Error);

/// Why an operation on a repository, a path or a set of repositories failed.
#[derive(Debug)]
pub enum GitError {
    /// No repository exists at the given path.
    RepoNotFound(String),
    /// The path holds something that is not a usable repository.
    InvalidRepo(String),
    /// A rule of this library forbids the operation (an empty or oversized commit
    /// message, a pull that would need a real merge, a missing branch name).
    OperationFailed(String),
    /// An error of the operating system.
    Io(std::io::Error),
    /// An error reported by libgit2.
    Git2(git2::Error),
    /// A path that does not exist, cannot be used, or must not be scanned.
    PathError(String),
    /// Bytes that are not UTF-8.
    Utf8(std::str::Utf8Error),
    /// Bytes that are not UTF-8, met while building a `String`.
    FromUtf8(std::string::FromUtf8Error),
    /// The repository has no commit that `HEAD` points to.
    NoHead,
    /// `HEAD` points at a commit rather than at a branch.
    DetachedHead,
    /// No remote, or no upstream branch, is configured.
    NoRemote,
    /// The named branch does not exist.
    BranchNotFound(String),
    /// A merge met conflicting changes.
    MergeConflict,
    /// The working directory holds uncommitted changes.
    DirtyWorkingDir,
}

/// A `Result` whose error is a [`GitError`].
pub type Result<T> = std::result::Result<T, GitError>;

/// Renders a libgit2 error with its `Display` impl. The text is whatever libgit2
/// reported, so nothing is claimed of it.
#[verifier::external_body]
pub(crate) fn git2_error_text(e: &git2::Error) -> (out: String) {
    format!("{}", e)
}

/// Renders an operating-system error with its `Display` impl; nothing is claimed
/// of the text.
#[verifier::external_body]
fn io_error_text(e: &std::io::Error) -> (out: String) {
    format!("{}", e)
}

/// Renders a UTF-8 validation error with its `Display` impl; nothing is claimed of
/// the text.
#[verifier::external_body]
fn utf8_error_text(e: &std::str::Utf8Error) -> (out: String) {
    format!("{}", e)
}

/// Renders a `String` conversion error with its `Display` impl; nothing is claimed
/// of the text.
#[verifier::external_body]
fn from_utf8_error_text(e: &std::string::FromUtf8Error) -> (out: String) {
    format!("{}", e)
}

impl GitError {
    /// The fixed text that a message for this error starts with. For the variants
    /// without a payload it is the whole message.
    pub open spec fn spec_prefix(&self) -> Seq<char> {
        match self {
            GitError::RepoNotFound(_) => "Repository not found at path: "@,
            GitError::InvalidRepo(_) => "Invalid repository: "@,
            GitError::OperationFailed(_) => "Git operation failed: "@,
            GitError::Io(_) => "IO error: "@,
            GitError::Git2(_) => "Git2 error: "@,
            GitError::PathError(_) => "Path error: "@,
            GitError::Utf8(_) => "UTF-8 conversion error: "@,
            GitError::FromUtf8(_) => "String conversion error: "@,
            GitError::NoHead => "No HEAD found"@,
            GitError::DetachedHead => "Detached HEAD state"@,
            GitError::NoRemote => "No remote configured"@,
            GitError::BranchNotFound(_) => "Branch not found: "@,
            GitError::MergeConflict => "Merge conflict detected"@,
            GitError::DirtyWorkingDir => "Working directory is dirty"@,
        }
    }

    /// The text carried by the variants that hold a `String`; `None` for the
    /// others.
    pub open spec fn spec_detail(&self) -> Option<Seq<char>> {
        match self {
            GitError::RepoNotFound(s) => Some(s@),
            GitError::InvalidRepo(s) => Some(s@),
            GitError::OperationFailed(s) => Some(s@),
            GitError::PathError(s) => Some(s@),
            GitError::BranchNotFound(s) => Some(s@),
            _ => None,
        }
    }

    /// Whether the variant wraps an error value of another library.
    pub open spec fn spec_wraps_foreign(&self) -> bool {
        self is Io || self is Git2 || self is Utf8 || self is FromUtf8
    }

    /// The human-readable message of the error.
    ///
    /// A variant with a `String` payload gives its prefix followed by the
    /// payload, a variant without payload gives its fixed text, and a variant that
    /// wraps a foreign error gives its prefix followed by that error's own text.
    pub fn message(&self) -> (out: String)
        ensures
            self.spec_prefix().is_prefix_of(out@),
            self.spec_detail() is Some ==> out@ == self.spec_prefix() + self.spec_detail()->0,
            self.spec_detail() is None && !self.spec_wraps_foreign() ==> out@
                == self.spec_prefix(),
    {
        let out = match self {
            GitError::RepoNotFound(s) => concat("Repository not found at path: ", s.as_str()),
            GitError::InvalidRepo(s) => concat("Invalid repository: ", s.as_str()),
            GitError::OperationFailed(s) => concat("Git operation failed: ", s.as_str()),
            GitError::Io(e) => concat("IO error: ", io_error_text(e).as_str()),
            GitError::Git2(e) => concat("Git2 error: ", git2_error_text(e).as_str()),
            GitError::PathError(s) => concat("Path error: ", s.as_str()),
            GitError::Utf8(e) => concat("UTF-8 conversion error: ", utf8_error_text(e).as_str()),
            GitError::FromUtf8(e) => concat(
                "String conversion error: ",
                from_utf8_error_text(e).as_str(),
            ),
            GitError::NoHead => "No HEAD found".to_owned(),
            GitError::DetachedHead => "Detached HEAD state".to_owned(),
            GitError::NoRemote => "No remote configured".to_owned(),
            GitError::BranchNotFound(s) => concat("Branch not found: ", s.as_str()),
            GitError::MergeConflict => "Merge conflict detected".to_owned(),
            GitError::DirtyWorkingDir => "Working directory is dirty".to_owned(),
        };
        assert(self.spec_prefix().is_prefix_of(out@)) by {
            let p = self.spec_prefix();
            assert(out@.subrange(0, p.len() as int) =~= p);
        }
        out
    }
}

} // verus!
