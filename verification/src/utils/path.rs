//! Paths, held as text.
//!
//! The library takes and returns paths as strings. How a path is taken apart is
//! left to `std::path`, whose answers are named here ([`spec_file_name`] and the
//! like) so that the contracts of this crate can speak of them. They are the
//! answers for the platform that the crate is built for.

use vstd::prelude::*;
use crate::error::GitError;
use crate::text::opt_view;

verus! {

/// The last component of a path, as `std::path::Path::file_name` gives it.
pub uninterp spec fn spec_file_name(path: Seq<char>) -> Option<Seq<char>>;

/// The path without its last component, as `std::path::Path::parent` gives it.
pub uninterp spec fn spec_parent(path: Seq<char>) -> Option<Seq<char>>;

/// Whether a path is absolute, as `std::path::Path::is_absolute` tells.
pub uninterp spec fn spec_is_absolute(path: Seq<char>) -> bool;

/// `path` below `base`, as `std::path::Path::join` builds it.
pub uninterp spec fn spec_join(base: Seq<char>, path: Seq<char>) -> Seq<char>;

/// `std::path::Path::file_name`: the last component of `path`, if it has one.
#[verifier::external_body]
fn path_file_name(path: &str) -> (name: Option<String>)
    ensures
        opt_view(name) == spec_file_name(path@),
{
    std::path::Path::new(path).file_name().and_then(|name| name.to_str()).map(str::to_string)
}

/// `std::path::Path::parent`: `path` without its last component, if it has one.
#[verifier::external_body]
fn path_parent(path: &str) -> (parent: Option<String>)
    ensures
        opt_view(parent) == spec_parent(path@),
{
    std::path::Path::new(path).parent().and_then(|parent| parent.to_str()).map(str::to_string)
}

/// `std::path::Path::is_absolute`: whether `path` is absolute.
#[verifier::external_body]
fn path_is_absolute(path: &str) -> (b: bool)
    ensures
        b == spec_is_absolute(path@),
{
    std::path::Path::new(path).is_absolute()
}

/// `std::path::Path::join`: `path` below `base`.
#[verifier::external_body]
pub(crate) fn path_join(base: &str, path: &str) -> (joined: String)
    ensures
        joined@ == spec_join(base@, path@),
{
    std::path::Path::new(base).join(path).to_string_lossy().into_owned()
}

/// `std::path::Path::exists`: whether something exists at `path` right now. The
/// answer depends on the disk, so nothing is claimed of it.
#[verifier::external_body]
pub(crate) fn file_exists(path: &str) -> (b: bool) {
    std::path::Path::new(path).exists()
}

/// The absolute form of a path: the path itself where it is absolute, and the
/// path below the current directory otherwise.
pub open spec fn spec_normalize(path: Seq<char>, current_dir: Seq<char>) -> Seq<char> {
    if spec_is_absolute(path) {
        path
    } else {
        spec_join(current_dir, path)
    }
}

/// Makes `path` absolute, given the current directory: see [`spec_normalize`].
pub fn normalize_path(path: &str, current_dir: &str) -> (out: String)
    ensures
        out@ == spec_normalize(path@, current_dir@),
{
    if path_is_absolute(path) {
        path.to_owned()
    } else {
        path_join(current_dir, path)
    }
}

/// The path as an owned string. A path held as text is always valid, so this
/// never fails.
pub fn path_to_string(path: &str) -> (r: Result<String, GitError>)
    ensures
        r is Ok,
        r->Ok_0@ == path@,
{
    Ok(path.to_owned())
}

/// The name that a repository at `path` goes by: the last component of the
/// path, or `unknown` where the path has none.
pub open spec fn spec_repo_name(path: Seq<char>) -> Seq<char> {
    match spec_file_name(path) {
        Some(name) => name,
        None => "unknown"@,
    }
}

/// Computes [`spec_repo_name`].
pub fn get_repo_name(path: &str) -> (name: String)
    ensures
        name@ == spec_repo_name(path@),
{
    match path_file_name(path) {
        Some(name) => name,
        None => "unknown".to_owned(),
    }
}

/// The directory that holds `path`, if there is one: see [`spec_parent`].
pub fn parent_path(path: &str) -> (parent: Option<String>)
    ensures
        opt_view(parent) == spec_parent(path@),
{
    path_parent(path)
}

} // verus!
