use easy_git::error::GitError;
use easy_git::git::backend::{CommitFields, MergeOutlook};
use easy_git::git::info::{ahead_behind_counts, assemble_info, commit_info};
use easy_git::git::repository::branch_of;
use easy_git::git::status::{
    changed_files, clamp_count, classify, repo_status, untracked_count, StatusFlags, StatusRecord,
};
use easy_git::git::sync::{branch_ref, pull_action, pull_refspec, push_refspec, PullAction};
use easy_git::models::commit::short_hash;
use easy_git::models::{BranchInfo, Commit, FileStatus, FileStatusKind, RepositoryInfo};

fn flags() -> StatusFlags {
    StatusFlags {
        wt_new: false,
        index_new: false,
        wt_modified: false,
        index_modified: false,
        wt_deleted: false,
        index_deleted: false,
        wt_renamed: false,
        index_renamed: false,
        conflicted: false,
    }
}

fn file(path: &str, status: FileStatusKind) -> FileStatus {
    FileStatus { path: path.to_string(), status }
}

#[test]
fn new_branch_info_is_blank() {
    let info = BranchInfo::new("main".to_string());
    assert_eq!(info.name, "main");
    assert!(!info.is_current);
    assert!(!info.is_remote);
    assert_eq!(info.upstream, None);
    assert_eq!(info.ahead, 0);
    assert_eq!(info.behind, 0);
    assert_eq!(info.last_commit_hash, None);
}

#[test]
fn new_commit_derives_its_short_hash() {
    let commit = Commit::new(
        "0123456789abcdef".to_string(),
        "message".to_string(),
        "Author".to_string(),
        "author@example.com".to_string(),
        1700000000,
    );
    assert_eq!(commit.hash, "0123456789abcdef");
    assert_eq!(commit.short_hash, "0123456");
    assert_eq!(commit.message, "message");
    assert_eq!(commit.author, "Author");
    assert_eq!(commit.email, "author@example.com");
    assert_eq!(commit.timestamp, 1700000000);
    assert!(commit.parents.is_empty());
}

#[test]
fn short_hash_keeps_short_input() {
    assert_eq!(short_hash("abc"), "abc");
    assert_eq!(short_hash(""), "");
    assert_eq!(short_hash("1234567"), "1234567");
    assert_eq!(short_hash("12345678"), "1234567");
    assert_eq!(short_hash("ääääääääää"), "äääääää");
}

#[test]
fn new_repository_info_is_blank() {
    let info = RepositoryInfo::new("/r".to_string(), "r".to_string());
    assert_eq!(info.path, "/r");
    assert_eq!(info.name, "r");
    assert_eq!(info.current_branch, None);
    assert!(!info.is_dirty);
    assert_eq!(info.uncommitted_changes, 0);
    assert_eq!(info.untracked_files, 0);
    assert_eq!(info.unpushed_commits, 0);
    assert_eq!(info.ahead, 0);
    assert_eq!(info.behind, 0);
    assert!(info.last_commit.is_none());
    assert!(info.files.is_empty());
}

#[test]
fn kinds_have_names() {
    assert_eq!(FileStatusKind::Modified.as_str(), "Modified");
    assert_eq!(FileStatusKind::Added.as_str(), "Added");
    assert_eq!(FileStatusKind::Deleted.as_str(), "Deleted");
    assert_eq!(FileStatusKind::Renamed.as_str(), "Renamed");
    assert_eq!(FileStatusKind::Copied.as_str(), "Copied");
    assert_eq!(FileStatusKind::Untracked.as_str(), "Untracked");
    assert_eq!(FileStatusKind::Conflicted.as_str(), "Conflicted");
}

#[test]
fn classification_goes_by_priority() {
    assert_eq!(classify(&StatusFlags { wt_new: true, wt_modified: true, ..flags() }), FileStatusKind::Untracked);
    assert_eq!(classify(&StatusFlags { index_new: true, conflicted: true, ..flags() }), FileStatusKind::Untracked);
    assert_eq!(classify(&StatusFlags { index_modified: true, wt_deleted: true, ..flags() }), FileStatusKind::Modified);
    assert_eq!(classify(&StatusFlags { wt_modified: true, ..flags() }), FileStatusKind::Modified);
    assert_eq!(classify(&StatusFlags { wt_deleted: true, wt_renamed: true, ..flags() }), FileStatusKind::Deleted);
    assert_eq!(classify(&StatusFlags { index_deleted: true, ..flags() }), FileStatusKind::Deleted);
    assert_eq!(classify(&StatusFlags { index_renamed: true, conflicted: true, ..flags() }), FileStatusKind::Renamed);
    assert_eq!(classify(&StatusFlags { wt_renamed: true, ..flags() }), FileStatusKind::Renamed);
    assert_eq!(classify(&StatusFlags { conflicted: true, ..flags() }), FileStatusKind::Conflicted);
    assert_eq!(classify(&flags()), FileStatusKind::Modified);
}

#[test]
fn changed_files_skip_entries_without_path() {
    let records = vec![
        StatusRecord { path: Some("a.txt".to_string()), flags: StatusFlags { wt_modified: true, ..flags() } },
        StatusRecord { path: None, flags: StatusFlags { wt_new: true, ..flags() } },
        StatusRecord { path: Some("b.txt".to_string()), flags: StatusFlags { wt_new: true, ..flags() } },
    ];
    let files = changed_files(&records);
    assert_eq!(files.len(), 2);
    assert_eq!(files[0].path, "a.txt");
    assert_eq!(files[0].status, FileStatusKind::Modified);
    assert_eq!(files[1].path, "b.txt");
    assert_eq!(files[1].status, FileStatusKind::Untracked);
}

#[test]
fn status_is_clean_exactly_without_files() {
    let clean = repo_status("/r".to_string(), Vec::new());
    assert!(clean.is_clean);
    assert_eq!(clean.path, "/r");
    let dirty = repo_status("/r".to_string(), vec![file("a", FileStatusKind::Modified)]);
    assert!(!dirty.is_clean);
    assert_eq!(dirty.files.len(), 1);
}

#[test]
fn counts_are_clamped() {
    assert_eq!(clamp_count(0), 0);
    assert_eq!(clamp_count(17), 17);
    assert_eq!(clamp_count(2147483647), i32::MAX);
    assert_eq!(clamp_count(2147483648), i32::MAX);
    assert_eq!(clamp_count(usize::MAX), i32::MAX);
    assert_eq!(ahead_behind_counts(3, 5), (3, 5));
    assert_eq!(ahead_behind_counts(usize::MAX, 0), (i32::MAX, 0));
}

#[test]
fn untracked_files_are_counted_apart() {
    let files = vec![
        file("a", FileStatusKind::Modified),
        file("b", FileStatusKind::Untracked),
        file("c", FileStatusKind::Deleted),
        file("d", FileStatusKind::Untracked),
    ];
    assert_eq!(untracked_count(&files), 2);
    let status = repo_status("/r".to_string(), files);
    let info = assemble_info(
        "/r".to_string(),
        "r".to_string(),
        Ok("main".to_string()),
        status,
        None,
        Ok((4, 1)),
    );
    assert!(info.is_dirty);
    assert_eq!(info.untracked_files, 2);
    assert_eq!(info.uncommitted_changes, 2);
    assert_eq!(info.ahead, 4);
    assert_eq!(info.behind, 1);
    assert_eq!(info.unpushed_commits, 4);
    assert_eq!(info.current_branch, Some("main".to_string()));
    assert_eq!(info.files.len(), 4);
}

#[test]
fn info_without_upstream_is_level() {
    let info = assemble_info(
        "/r".to_string(),
        "r".to_string(),
        Err(GitError::DetachedHead),
        repo_status("/r".to_string(), Vec::new()),
        None,
        Err(GitError::NoRemote),
    );
    assert_eq!(info.ahead, 0);
    assert_eq!(info.behind, 0);
    assert_eq!(info.unpushed_commits, 0);
    assert!(!info.is_dirty);
    assert_eq!(info.current_branch, None);
}

#[test]
fn commit_info_fills_absent_texts_with_nothing() {
    let info = commit_info(CommitFields {
        id: "89abcdef0123456789abcdef0123456789abcdef".to_string(),
        message: None,
        author: Some("A".to_string()),
        email: None,
        seconds: 42,
    });
    assert_eq!(info.hash, "89abcdef0123456789abcdef0123456789abcdef");
    assert_eq!(info.short_hash, "89abcde");
    assert_eq!(info.message, "");
    assert_eq!(info.author, "A");
    assert_eq!(info.email, "");
    assert_eq!(info.timestamp, 42);
}

#[test]
fn branch_of_tells_detached_from_missing() {
    assert!(matches!(branch_of(false, Some("HEAD".to_string())), Err(GitError::DetachedHead)));
    assert!(matches!(branch_of(false, None), Err(GitError::DetachedHead)));
    assert!(matches!(branch_of(true, None), Err(GitError::NoHead)));
    assert_eq!(branch_of(true, Some("main".to_string())).unwrap(), "main");
}

#[test]
fn refspecs_name_the_branch_on_both_sides() {
    assert_eq!(branch_ref("main"), "refs/heads/main");
    assert_eq!(push_refspec("main"), "refs/heads/main:refs/heads/main");
    assert_eq!(pull_refspec("feature/x"), "+refs/heads/feature/x:refs/remotes/origin/feature/x");
}

#[test]
fn pull_only_fast_forwards() {
    assert_eq!(pull_action(MergeOutlook { up_to_date: true, fast_forward: false }), PullAction::Nothing);
    assert_eq!(pull_action(MergeOutlook { up_to_date: true, fast_forward: true }), PullAction::Nothing);
    assert_eq!(pull_action(MergeOutlook { up_to_date: false, fast_forward: true }), PullAction::FastForward);
    assert_eq!(pull_action(MergeOutlook { up_to_date: false, fast_forward: false }), PullAction::Refuse);
}

#[test]
fn errors_have_messages() {
    assert_eq!(GitError::RepoNotFound("/x".to_string()).message(), "Repository not found at path: /x");
    assert_eq!(GitError::InvalidRepo("bad".to_string()).message(), "Invalid repository: bad");
    assert_eq!(GitError::OperationFailed("why".to_string()).message(), "Git operation failed: why");
    assert_eq!(GitError::PathError("p".to_string()).message(), "Path error: p");
    assert_eq!(GitError::BranchNotFound("b".to_string()).message(), "Branch not found: b");
    assert_eq!(GitError::NoHead.message(), "No HEAD found");
    assert_eq!(GitError::DetachedHead.message(), "Detached HEAD state");
    assert_eq!(GitError::NoRemote.message(), "No remote configured");
    assert_eq!(GitError::MergeConflict.message(), "Merge conflict detected");
    assert_eq!(GitError::DirtyWorkingDir.message(), "Working directory is dirty");
    assert_eq!(
        GitError::Git2(git2::Error::from_str("boom")).message(),
        "Git2 error: boom"
    );
    let io = std::io::Error::new(std::io::ErrorKind::Other, "disk");
    assert_eq!(GitError::Io(io).message(), "IO error: disk");
    let utf8 = std::str::from_utf8(&[0xff]).unwrap_err();
    assert!(GitError::Utf8(utf8).message().starts_with("UTF-8 conversion error: "));
    let from_utf8 = String::from_utf8(vec![0xff]).unwrap_err();
    assert!(GitError::FromUtf8(from_utf8).message().starts_with("String conversion error: "));
}
