//! Which directories a scan may start at, and which it enters.

use vstd::prelude::*;
use crate::error::GitError;
use crate::text::{chars_of, concat, same_chars, starts_with};

verus! {

/// The name of the directory that marks its parent as a repository.
pub open spec fn spec_marker() -> Seq<char> {
    ".git"@
}

/// The directories of the operating system below which nothing is scanned.
pub open spec fn spec_system_prefixes() -> Seq<Seq<char>> {
    seq![
        "/etc"@,
        "/sys"@,
        "/proc"@,
        "/dev"@,
        "/boot"@,
        "/System"@,
        "/private"@,
        "/var"@,
        "/usr/bin"@,
        "/usr/sbin"@,
        "C:\\Windows"@,
        "C:\\Program Files"@,
        "C:\\Program Files (x86)"@,
    ]
}

/// Whether `text` starts with one of `prefixes`.
pub open spec fn spec_starts_with_any(text: Seq<char>, prefixes: Seq<Seq<char>>) -> bool {
    exists|i: int| 0 <= i < prefixes.len() && (#[trigger] prefixes[i]).is_prefix_of(text)
}

/// Whether a path lies at or below a system directory: whether its text starts
/// with one of [`spec_system_prefixes`]. This compares text and nothing else.
pub open spec fn spec_is_system_path(path: Seq<char>) -> bool {
    spec_starts_with_any(path, spec_system_prefixes())
}

/// The texts of a list of string slices.
pub open spec fn str_views(list: Seq<&str>) -> Seq<Seq<char>> {
    list.map_values(|c: &str| c@)
}

/// The names of directories that hold build output, dependencies or the files
/// of tools, and never a repository worth finding.
pub open spec fn spec_noise_names() -> Seq<Seq<char>> {
    seq![
        "node_modules"@,
        "target"@,
        "build"@,
        ".dart_tool"@,
        ".gradle"@,
        ".idea"@,
        ".vscode"@,
        "vendor"@,
        "dist"@,
        "out"@,
        "__pycache__"@,
    ]
}

/// Whether a directory of this name is passed over as noise.
pub open spec fn spec_should_skip_dir(name: Seq<char>) -> bool {
    spec_noise_names().contains(name)
}

/// Whether a scan enters a subdirectory of this name: not where the name starts
/// with a dot (the marker directory is among those), and not where it is noise.
pub open spec fn spec_enters(name: Seq<char>) -> bool {
    !(name.len() > 0 && name[0] == '.') && !spec_should_skip_dir(name)
}

/// Whether `text` is one of `candidates`.
fn is_one_of(text: &Vec<char>, candidates: &Vec<&str>) -> (b: bool)
    ensures
        b == str_views(candidates@).contains(text@),
{
    let ghost views = str_views(candidates@);
    let mut i: usize = 0;
    while i < candidates.len()
        invariant
            i <= candidates.len(),
            views == str_views(candidates@),
            forall|k: int| 0 <= k < i ==> views[k] != text@,
        decreases candidates.len() - i,
    {
        let candidate = chars_of(candidates[i]);
        if same_chars(text, &candidate) {
            assert(views[i as int] == text@);
            return true;
        }
        i += 1;
    }
    false
}

/// Whether `text` starts with one of `prefixes`.
fn starts_with_one_of(text: &Vec<char>, prefixes: &Vec<&str>) -> (b: bool)
    ensures
        b == spec_starts_with_any(text@, str_views(prefixes@)),
{
    let ghost views = str_views(prefixes@);
    let mut i: usize = 0;
    while i < prefixes.len()
        invariant
            i <= prefixes.len(),
            views == str_views(prefixes@),
            forall|k: int| 0 <= k < i ==> !(#[trigger] views[k]).is_prefix_of(text@),
        decreases prefixes.len() - i,
    {
        let prefix = chars_of(prefixes[i]);
        if starts_with(text, &prefix) {
            assert(views[i as int].is_prefix_of(text@));
            return true;
        }
        i += 1;
    }
    false
}

/// Computes [`spec_should_skip_dir`].
pub fn should_skip_dir(name: &str) -> (b: bool)
    ensures
        b == spec_should_skip_dir(name@),
{
    let names: Vec<&str> = vec![
        "node_modules",
        "target",
        "build",
        ".dart_tool",
        ".gradle",
        ".idea",
        ".vscode",
        "vendor",
        "dist",
        "out",
        "__pycache__",
    ];
    assert(str_views(names@) =~= spec_noise_names());
    is_one_of(&chars_of(name), &names)
}

/// Computes [`spec_enters`].
pub fn enters(name: &str) -> (b: bool)
    ensures
        b == spec_enters(name@),
{
    let chars = chars_of(name);
    if chars.len() > 0 && chars[0] == '.' {
        return false;
    }
    !should_skip_dir(name)
}

/// Computes [`spec_is_system_path`].
pub fn is_system_path(path: &str) -> (b: bool)
    ensures
        b == spec_is_system_path(path@),
{
    let prefixes: Vec<&str> = vec![
        "/etc",
        "/sys",
        "/proc",
        "/dev",
        "/boot",
        "/System",
        "/private",
        "/var",
        "/usr/bin",
        "/usr/sbin",
        "C:\\Windows",
        "C:\\Program Files",
        "C:\\Program Files (x86)",
    ];
    assert(str_views(prefixes@) =~= spec_system_prefixes());
    starts_with_one_of(&chars_of(path), &prefixes)
}

/// Refuses to scan at or below a system directory: fails with `PathError`
/// exactly where [`spec_is_system_path`] holds of the path, which is expected
/// in canonical form.
pub fn check_scan_root(canonical: &str) -> (r: Result<(), GitError>)
    ensures
        r is Err <==> spec_is_system_path(canonical@),
        r matches Err(e) ==> e is PathError,
{
    if is_system_path(canonical) {
        Err(GitError::PathError(concat("Refusing to scan system directory: ", canonical)))
    } else {
        Ok(())
    }
}

} // verus!
