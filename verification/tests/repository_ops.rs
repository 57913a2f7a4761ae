use std::time::{SystemTime, UNIX_EPOCH};

use easy_git::error::GitError;
use easy_git::git::batch::{
    commit_multiple_repositories, discard_multiple_repositories, distinct_paths,
    fetch_multiple_repositories, get_multiple_repository_info, pull_multiple_repositories,
    push_multiple_repositories, succeeded,
};
use easy_git::git::backend::MergeOutlook;
use easy_git::git::repository::{
    branch_entry, commit_repository, discard_repository_changes, fetch_repository, get_repository_info,
    get_repository_status, pull_repository, push_repository, GitRepository,
};
use easy_git::models::FileStatusKind;

const BASE: &str = "/tmp/easy_git_tests";

fn fresh_dir(tag: &str) -> String {
    let nanos = SystemTime::now().duration_since(UNIX_EPOCH).unwrap().as_nanos();
    format!("{}/{}_{}", BASE, tag, nanos)
}

fn configure(repo: &git2::Repository) {
    let mut config = repo.config().unwrap();
    config.set_str("user.name", "Tester").unwrap();
    config.set_str("user.email", "tester@example.com").unwrap();
}

fn init_repo(path: &str) -> git2::Repository {
    let repo = git2::Repository::init(path).unwrap();
    configure(&repo);
    repo
}

fn tree_with(repo: &git2::Repository, files: &[(&str, &str)]) -> git2::Oid {
    let mut builder = repo.treebuilder(None).unwrap();
    for (name, content) in files {
        let blob = repo.blob(content.as_bytes()).unwrap();
        builder.insert(name, blob, 0o100644).unwrap();
    }
    builder.write().unwrap()
}

fn commit_files(repo: &git2::Repository, files: &[(&str, &str)], message: &str) -> git2::Oid {
    let tree = repo.find_tree(tree_with(repo, files)).unwrap();
    let signature = git2::Signature::now("Tester", "tester@example.com").unwrap();
    let parents: Vec<git2::Commit> = match repo.head() {
        Ok(head) => vec![head.peel_to_commit().unwrap()],
        Err(_) => Vec::new(),
    };
    let parent_refs: Vec<&git2::Commit> = parents.iter().collect();
    let id = repo.commit(Some("HEAD"), &signature, &signature, message, &tree, &parent_refs).unwrap();
    repo.checkout_head(Some(git2::build::CheckoutBuilder::new().force())).unwrap();
    id
}

fn write_worktree(repo: &git2::Repository, files: &[(&str, &str)]) {
    let object = repo.find_object(tree_with(repo, files), None).unwrap();
    repo.checkout_tree(&object, Some(git2::build::CheckoutBuilder::new().force())).unwrap();
    let head_tree = repo.head().unwrap().peel_to_tree().unwrap();
    let mut index = repo.index().unwrap();
    index.read_tree(&head_tree).unwrap();
    index.write().unwrap();
}

fn head_id(path: &str) -> git2::Oid {
    git2::Repository::open(path).unwrap().head().unwrap().target().unwrap()
}

fn head_message(path: &str) -> String {
    let repo = git2::Repository::open(path).unwrap();
    let commit = repo.head().unwrap().peel_to_commit().unwrap();
    commit.message().unwrap().to_string()
}

fn no_helper(_request: String) -> Option<String> {
    None
}

fn repo_with_origin(tag: &str) -> (String, String, git2::Oid) {
    let origin = fresh_dir(&format!("{}_origin", tag));
    git2::Repository::init_bare(&origin).unwrap();
    let local = fresh_dir(&format!("{}_local", tag));
    let repo = init_repo(&local);
    let first = commit_files(&repo, &[("tracked.txt", "one\n")], "first");
    repo.remote("origin", &origin).unwrap();
    push_repository(local.clone(), BASE, "", &no_helper).unwrap();
    (origin, local, first)
}

fn advance_origin(origin: &str, tag: &str) -> git2::Oid {
    let other = fresh_dir(&format!("{}_other", tag));
    let repo = git2::Repository::clone(origin, &other).unwrap();
    configure(&repo);
    let id = commit_files(&repo, &[("tracked.txt", "one\n"), ("remote.txt", "theirs\n")], "theirs");
    push_repository(other, BASE, "", &no_helper).unwrap();
    id
}

#[test]
fn status_lists_modified_and_untracked_files() {
    let path = fresh_dir("status");
    let repo = init_repo(&path);
    commit_files(&repo, &[("tracked.txt", "one\n")], "first");
    write_worktree(&repo, &[("tracked.txt", "two\n"), ("fresh.txt", "new\n")]);

    let status = get_repository_status(path.clone(), BASE).unwrap();
    assert_eq!(status.path, path);
    assert_eq!(status.files.len(), 2);
    assert!(!status.is_clean);
    let changed = status.files.iter().find(|f| f.path == "tracked.txt").unwrap();
    assert_eq!(changed.status, FileStatusKind::Modified);
    let fresh = status.files.iter().find(|f| f.path == "fresh.txt").unwrap();
    assert_eq!(fresh.status, FileStatusKind::Untracked);

    let info = get_repository_info(path.clone(), BASE).unwrap();
    assert!(info.is_dirty);
    assert_eq!(info.uncommitted_changes, 1);
    assert_eq!(info.untracked_files, 1);
    assert_eq!(info.files.len(), 2);
    assert_eq!(info.path, path);
    assert_eq!(Some(info.name.as_str()), path.rsplit('/').next());
}

#[test]
fn clean_repository_has_a_clean_status() {
    let path = fresh_dir("clean");
    let repo = init_repo(&path);
    let id = commit_files(&repo, &[("tracked.txt", "one\n")], "first commit\n\nbody");
    let status = get_repository_status(path.clone(), BASE).unwrap();
    assert!(status.is_clean);
    assert!(status.files.is_empty());

    let info = get_repository_info(path, BASE).unwrap();
    assert!(!info.is_dirty);
    assert_eq!(info.uncommitted_changes, 0);
    assert_eq!(info.untracked_files, 0);
    let last = info.last_commit.unwrap();
    assert_eq!(last.hash, id.to_string());
    assert_eq!(last.short_hash, id.to_string()[..7].to_string());
    assert_eq!(last.message, "first commit\n\nbody");
    assert_eq!(last.author, "Tester");
    assert_eq!(last.email, "tester@example.com");
    assert!(last.timestamp > 1_600_000_000);
    assert!(info.current_branch.is_some());
}

#[test]
fn info_without_upstream_reports_zero_ahead_and_behind() {
    let path = fresh_dir("no_upstream");
    let repo = init_repo(&path);
    commit_files(&repo, &[("tracked.txt", "one\n")], "first");

    let handle = GitRepository::open(&path, BASE).unwrap();
    assert!(matches!(handle.get_ahead_behind(), Err(GitError::NoRemote)));
    let info = handle.get_info().unwrap();
    assert_eq!(info.ahead, 0);
    assert_eq!(info.behind, 0);
    assert_eq!(info.unpushed_commits, 0);
}

#[test]
fn repository_without_commit_has_no_branch_and_no_last_commit() {
    let path = fresh_dir("unborn");
    init_repo(&path);
    let handle = GitRepository::open(&path, BASE).unwrap();
    assert_eq!(handle.path(), path);
    assert!(matches!(handle.get_current_branch(), Err(GitError::NoHead)));
    assert!(matches!(handle.get_ahead_behind(), Err(GitError::NoHead)));
    assert!(handle.last_commit().is_none());
    let info = handle.get_info().unwrap();
    assert_eq!(info.current_branch, None);
    assert!(info.last_commit.is_none());
    assert_eq!(info.ahead, 0);
    assert_eq!(info.behind, 0);
}

#[test]
fn detached_head_has_no_current_branch() {
    let path = fresh_dir("detached");
    let repo = init_repo(&path);
    let id = commit_files(&repo, &[("tracked.txt", "one\n")], "first");
    repo.set_head_detached(id).unwrap();
    let handle = GitRepository::open(&path, BASE).unwrap();
    assert!(matches!(handle.get_current_branch(), Err(GitError::DetachedHead)));
    assert_eq!(handle.get_info().unwrap().current_branch, None);
    assert!(matches!(handle.push("", &no_helper), Err(GitError::NoRemote)));
    repo.remote("origin", "/nonexistent/origin/of/easy_git").unwrap();
    assert!(matches!(handle.push("", &no_helper), Err(GitError::OperationFailed(_))));
}

#[test]
fn opening_what_is_no_repository_fails() {
    let path = fresh_dir("missing");
    match GitRepository::open(&path, BASE) {
        Err(GitError::RepoNotFound(p)) => assert_eq!(p, path),
        Err(other) => panic!("unexpected error {:?}", other),
        Ok(_) => panic!("opened a repository that does not exist"),
    }
    assert!(get_repository_info(path.clone(), BASE).is_err());
    assert!(get_repository_status(path.clone(), BASE).is_err());
    assert!(discard_repository_changes(path.clone(), BASE).is_err());
    assert!(fetch_repository(path.clone(), BASE, "", &no_helper).is_err());
    assert!(pull_repository(path.clone(), BASE, "", &no_helper).is_err());
    assert!(push_repository(path.clone(), BASE, "", &no_helper).is_err());
    assert!(commit_repository(path, BASE, "message".to_string()).is_err());
}

#[test]
fn commit_stores_the_sanitized_message() {
    let path = fresh_dir("commit");
    let repo = init_repo(&path);
    let first = commit_files(&repo, &[("tracked.txt", "one\n")], "first");
    write_worktree(&repo, &[("tracked.txt", "two\n"), ("fresh.txt", "new\n")]);

    let lines: Vec<String> = (0..150).map(|i| format!("Line\0 {}", i)).collect();
    let id = commit_repository(path.clone(), BASE, lines.join("\n")).unwrap();
    assert_eq!(id.len(), 40);
    assert_eq!(id, head_id(&path).to_string());
    assert_ne!(id, first.to_string());

    let expected: Vec<String> = (0..100).map(|i| format!("Line {}", i)).collect();
    assert_eq!(head_message(&path), expected.join("\n"));
    assert!(get_repository_status(path.clone(), BASE).unwrap().is_clean);

    let reopened = git2::Repository::open(&path).unwrap();
    let commit = reopened.head().unwrap().peel_to_commit().unwrap();
    assert_eq!(commit.parent_count(), 1);
    assert_eq!(commit.parent_id(0).unwrap(), first);
    assert_eq!(commit.author().name(), Ok("Tester"));
}

#[test]
fn commit_refuses_empty_and_oversized_messages() {
    let path = fresh_dir("refuse");
    let repo = init_repo(&path);
    let first = commit_files(&repo, &[("tracked.txt", "one\n")], "first");
    write_worktree(&repo, &[("tracked.txt", "two\n")]);

    assert!(matches!(
        commit_repository(path.clone(), BASE, String::new()),
        Err(GitError::OperationFailed(_))
    ));
    assert!(matches!(
        commit_repository(path.clone(), BASE, "a".repeat(10001)),
        Err(GitError::OperationFailed(_))
    ));
    let mut handle = GitRepository::open(&path, BASE).unwrap();
    assert!(matches!(handle.commit(""), Err(GitError::OperationFailed(_))));
    assert!(matches!(handle.commit_all(&"b".repeat(10001)), Err(GitError::OperationFailed(_))));
    assert_eq!(head_id(&path), first);
    assert_eq!(get_repository_status(path.clone(), BASE).unwrap().files.len(), 1);

    assert!(commit_repository(path.clone(), BASE, "a".repeat(10000)).is_ok());
    assert_ne!(head_id(&path), first);
}

#[test]
fn commit_without_head_fails_with_no_head() {
    let path = fresh_dir("rootless");
    init_repo(&path);
    assert!(matches!(commit_repository(path, BASE, "message".to_string()), Err(GitError::NoHead)));
}

#[test]
fn discard_restores_the_last_commit() {
    let path = fresh_dir("discard");
    let repo = init_repo(&path);
    commit_files(&repo, &[("tracked.txt", "one\n")], "first");
    write_worktree(&repo, &[("tracked.txt", "two\n"), ("fresh.txt", "new\n")]);
    assert_eq!(get_repository_status(path.clone(), BASE).unwrap().files.len(), 2);
    discard_repository_changes(path.clone(), BASE).unwrap();
    assert!(get_repository_status(path, BASE).unwrap().is_clean);
}

#[test]
fn branches_are_listed_with_the_current_one_marked() {
    let (_origin, local, _first) = repo_with_origin("branches");
    let handle = GitRepository::open(&local, BASE).unwrap();
    let current = handle.get_current_branch().unwrap();
    fetch_repository(local.clone(), BASE, "", &no_helper).unwrap();
    let repo = git2::Repository::open(&local).unwrap();
    let upstream = format!("origin/{}", current);
    repo.find_branch(&current, git2::BranchType::Local)
        .unwrap()
        .set_upstream(Some(&upstream))
        .unwrap();

    let branches = handle.get_branches().unwrap();
    let local_branch = branches.iter().find(|b| b.name == current).unwrap();
    assert!(local_branch.is_current);
    assert_eq!(local_branch.upstream, Some(upstream.clone()));
    assert!(!local_branch.is_remote);
    assert_eq!((local_branch.ahead, local_branch.behind), (0, 0));
    assert_eq!(local_branch.last_commit_hash, None);
    let remote_branch = branches.iter().find(|b| b.name == upstream).unwrap();
    assert!(!remote_branch.is_current);
    assert!(remote_branch.is_remote);
    assert_eq!(remote_branch.upstream, None);
}

#[test]
fn pull_when_up_to_date_changes_nothing() {
    let (_origin, local, first) = repo_with_origin("uptodate");
    pull_repository(local.clone(), BASE, "", &no_helper).unwrap();
    assert_eq!(head_id(&local), first);
    assert!(get_repository_status(local, BASE).unwrap().is_clean);
}

#[test]
fn pull_fast_forwards_to_the_remote_commit() {
    let (origin, local, first) = repo_with_origin("forward");
    let theirs = advance_origin(&origin, "forward");
    assert_ne!(theirs, first);
    pull_repository(local.clone(), BASE, "", &no_helper).unwrap();
    assert_eq!(head_id(&local), theirs);
    assert!(get_repository_status(local.clone(), BASE).unwrap().is_clean);
    let handle = GitRepository::open(&local, BASE).unwrap();
    assert!(handle.get_current_branch().is_ok());
}

#[test]
fn pull_refuses_diverged_histories() {
    let (origin, local, _first) = repo_with_origin("diverged");
    advance_origin(&origin, "diverged");
    let repo = git2::Repository::open(&local).unwrap();
    let ours = commit_files(&repo, &[("tracked.txt", "one\n"), ("local.txt", "ours\n")], "ours");

    let result = pull_repository(local.clone(), BASE, "", &no_helper);
    assert!(matches!(result, Err(GitError::OperationFailed(_))));
    assert_eq!(head_id(&local), ours);
    assert!(get_repository_status(local, BASE).unwrap().is_clean);
}

#[test]
fn fetch_leaves_the_local_branch_alone() {
    let (origin, local, first) = repo_with_origin("fetch");
    advance_origin(&origin, "fetch");
    fetch_repository(local.clone(), BASE, "", &no_helper).unwrap();
    assert_eq!(head_id(&local), first);

    let handle = GitRepository::open(&local, BASE).unwrap();
    let current = handle.get_current_branch().unwrap();
    let repo = git2::Repository::open(&local).unwrap();
    repo.find_branch(&current, git2::BranchType::Local)
        .unwrap()
        .set_upstream(Some(&format!("origin/{}", current)))
        .unwrap();
    assert_eq!(handle.get_ahead_behind().unwrap(), (0, 1));
    let info = handle.get_info().unwrap();
    assert_eq!(info.ahead, 0);
    assert_eq!(info.behind, 1);

    commit_files(&repo, &[("tracked.txt", "one\n"), ("local.txt", "ours\n")], "ours");
    assert_eq!(handle.get_ahead_behind().unwrap(), (1, 1));
    let info = handle.get_info().unwrap();
    assert_eq!(info.ahead, 1);
    assert_eq!(info.unpushed_commits, 1);
}

#[test]
fn operations_without_origin_fail_with_no_remote() {
    let path = fresh_dir("no_remote");
    let repo = init_repo(&path);
    commit_files(&repo, &[("tracked.txt", "one\n")], "first");
    assert!(matches!(push_repository(path.clone(), BASE, "", &no_helper), Err(GitError::NoRemote)));
    assert!(matches!(fetch_repository(path.clone(), BASE, "", &no_helper), Err(GitError::NoRemote)));
    assert!(matches!(pull_repository(path, BASE, "", &no_helper), Err(GitError::NoRemote)));
}

#[test]
fn commit_many_returns_the_paths_that_worked() {
    let repo_a = fresh_dir("many_a");
    let repo = init_repo(&repo_a);
    commit_files(&repo, &[("tracked.txt", "one\n")], "first");
    write_worktree(&repo, &[("tracked.txt", "two\n")]);
    let repo_b = fresh_dir("many_b");

    let done = commit_multiple_repositories(vec![repo_a.clone(), repo_b], BASE.to_string(), "msg".to_string()).unwrap();
    assert_eq!(done, vec![repo_a.clone()]);
    assert_eq!(head_message(&repo_a), "msg");
}

#[test]
fn batches_skip_what_fails_and_keep_the_order() {
    let (origin, first_local, _first) = repo_with_origin("batch_one");
    let second_local = fresh_dir("batch_two");
    let second = git2::Repository::clone(&origin, &second_local).unwrap();
    configure(&second);
    let missing = fresh_dir("batch_missing");
    let paths = vec![second_local.clone(), missing.clone(), first_local.clone()];
    let kept = vec![second_local.clone(), first_local.clone()];

    assert_eq!(push_multiple_repositories(paths.clone(), BASE.to_string(), String::new(), &no_helper).unwrap(), kept);
    assert_eq!(pull_multiple_repositories(paths.clone(), BASE.to_string(), String::new(), &no_helper).unwrap(), kept);
    assert_eq!(discard_multiple_repositories(paths.clone(), BASE.to_string()).unwrap(), kept);
    let infos = get_multiple_repository_info(paths.clone(), BASE.to_string());
    let info_paths: Vec<String> = infos.iter().map(|i| i.path.clone()).collect();
    assert_eq!(info_paths, kept);

    let repeated = vec![
        first_local.clone(),
        missing.clone(),
        second_local.clone(),
        first_local.clone(),
        second_local.clone(),
    ];
    assert_eq!(
        fetch_multiple_repositories(repeated, BASE.to_string(), String::new(), &no_helper).unwrap(),
        vec![first_local, second_local]
    );
    assert_eq!(discard_multiple_repositories(Vec::new(), BASE.to_string()).unwrap(), Vec::<String>::new());
}

#[test]
fn selections_and_distinct_paths_keep_first_occurrences() {
    let paths: Vec<String> = ["b", "a", "b", "c", "a"].iter().map(|s| s.to_string()).collect();
    assert_eq!(distinct_paths(&paths), vec!["b".to_string(), "a".to_string(), "c".to_string()]);
    assert_eq!(
        succeeded(&paths, &vec![true, false, true, false, true]),
        vec!["b".to_string(), "b".to_string(), "a".to_string()]
    );
    assert_eq!(succeeded(&Vec::new(), &Vec::new()), Vec::<String>::new());
}

#[test]
fn unusable_repository_is_invalid() {
    let path = fresh_dir("invalid");
    let repo = init_repo(&path);
    commit_files(&repo, &[("tracked.txt", "one\n")], "first");
    repo.config().unwrap().set_i32("core.repositoryformatversion", 99).unwrap();
    match GitRepository::open(&path, BASE) {
        Err(GitError::InvalidRepo(text)) => assert!(!text.is_empty()),
        Err(other) => panic!("unexpected error {:?}", other),
        Ok(_) => panic!("opened a repository of an unknown format"),
    }
    assert!(matches!(get_repository_info(path, BASE), Err(GitError::InvalidRepo(_))));
}

#[test]
fn unreachable_origin_fails_with_the_error_of_libgit2() {
    let path = fresh_dir("unreachable");
    let repo = init_repo(&path);
    commit_files(&repo, &[("tracked.txt", "one\n")], "first");
    repo.remote("origin", "/nonexistent/origin/of/easy_git").unwrap();
    assert!(matches!(fetch_repository(path.clone(), BASE, "", &no_helper), Err(GitError::Git2(_))));
    assert!(matches!(push_repository(path.clone(), BASE, "", &no_helper), Err(GitError::Git2(_))));
    assert!(matches!(pull_repository(path.clone(), BASE, "", &no_helper), Err(GitError::Git2(_))));
    assert_eq!(
        fetch_multiple_repositories(vec![path], BASE.to_string(), String::new(), &no_helper).unwrap(),
        Vec::<String>::new()
    );
}

#[test]
fn detached_head_names_no_branch_to_compare() {
    let path = fresh_dir("detached_compare");
    let repo = init_repo(&path);
    let id = commit_files(&repo, &[("tracked.txt", "one\n")], "first");
    repo.set_head_detached(id).unwrap();
    let handle = GitRepository::open(&path, BASE).unwrap();
    match handle.get_ahead_behind() {
        Err(GitError::BranchNotFound(name)) => assert_eq!(name, "HEAD"),
        other => panic!("unexpected result {:?}", other),
    }
    let info = handle.get_info().unwrap();
    assert_eq!((info.ahead, info.behind), (0, 0));
}

#[test]
fn batch_commit_with_a_refused_message_commits_nowhere() {
    let path = fresh_dir("batch_refused");
    let repo = init_repo(&path);
    let first = commit_files(&repo, &[("tracked.txt", "one\n")], "first");
    write_worktree(&repo, &[("tracked.txt", "two\n")]);
    let paths = vec![path.clone(), fresh_dir("batch_refused_missing")];

    assert_eq!(
        commit_multiple_repositories(paths.clone(), BASE.to_string(), String::new()).unwrap(),
        Vec::<String>::new()
    );
    assert_eq!(
        commit_multiple_repositories(paths.clone(), BASE.to_string(), "a".repeat(10001)).unwrap(),
        Vec::<String>::new()
    );
    assert_eq!(head_id(&path), first);
    assert_eq!(commit_multiple_repositories(paths, BASE.to_string(), "a".repeat(10000)).unwrap(), vec![path.clone()]);
    assert_ne!(head_id(&path), first);
}

#[test]
fn missing_repository_is_named_in_the_error() {
    let path = fresh_dir("named_missing");
    match push_repository(path.clone(), BASE, "", &no_helper) {
        Err(GitError::RepoNotFound(p)) => assert_eq!(p, path),
        other => panic!("unexpected result {:?}", other),
    }
    match fetch_repository(path.clone(), BASE, "", &no_helper) {
        Err(GitError::RepoNotFound(p)) => assert_eq!(p, path),
        other => panic!("unexpected result {:?}", other),
    }
    match pull_repository(path.clone(), BASE, "", &no_helper) {
        Err(GitError::RepoNotFound(p)) => assert_eq!(p, path),
        other => panic!("unexpected result {:?}", other),
    }
    match discard_repository_changes(path.clone(), BASE) {
        Err(GitError::RepoNotFound(p)) => assert_eq!(p, path),
        other => panic!("unexpected result {:?}", other),
    }
}

#[test]
fn refusals_of_the_library_say_why() {
    let (origin, local, _first) = repo_with_origin("say_why");
    advance_origin(&origin, "say_why");
    let repo = git2::Repository::open(&local).unwrap();
    let ours = commit_files(&repo, &[("tracked.txt", "one\n"), ("local.txt", "ours\n")], "ours");
    match pull_repository(local.clone(), BASE, "", &no_helper) {
        Err(GitError::OperationFailed(text)) => {
            assert_eq!(text, "Pull requires merge, not implemented yet")
        }
        other => panic!("unexpected result {:?}", other),
    }

    repo.set_head_detached(ours).unwrap();
    match push_repository(local.clone(), BASE, "", &no_helper) {
        Err(GitError::OperationFailed(text)) => assert_eq!(text, "No branch name"),
        other => panic!("unexpected result {:?}", other),
    }
    match pull_repository(local, BASE, "", &no_helper) {
        Err(GitError::OperationFailed(text)) => assert_eq!(text, "No branch name"),
        other => panic!("unexpected result {:?}", other),
    }
}

#[test]
fn relative_paths_are_read_against_the_current_directory() {
    let path = fresh_dir("relative");
    let repo = init_repo(&path);
    commit_files(&repo, &[("tracked.txt", "one\n")], "first");
    write_worktree(&repo, &[("tracked.txt", "two\n"), ("fresh.txt", "new\n")]);
    let name = path.rsplit('/').next().unwrap().to_string();

    let handle = GitRepository::open(&name, BASE).unwrap();
    assert_eq!(handle.path(), path);
    let status = get_repository_status(name.clone(), BASE).unwrap();
    assert_eq!(status.path, path);
    assert_eq!(status.files.len(), 2);
    assert!(!status.is_clean);
    let info = get_repository_info(name.clone(), BASE).unwrap();
    assert_eq!(info.path, path);
    assert_eq!(info.name, name);

    let infos = get_multiple_repository_info(vec![name.clone()], BASE.to_string());
    assert_eq!(infos.len(), 1);
    assert_eq!(infos[0].path, path);
    assert_eq!(
        discard_multiple_repositories(vec![name.clone()], BASE.to_string()).unwrap(),
        vec![name.clone()]
    );
    assert!(get_repository_status(name, BASE).unwrap().is_clean);

    match GitRepository::open("no_such_repository_here", BASE) {
        Err(GitError::RepoNotFound(p)) => {
            assert_eq!(p, format!("{}/no_such_repository_here", BASE))
        }
        other => panic!("unexpected result {:?}", other.map(|_| ())),
    }
    let elsewhere = GitRepository::open(&path, "/nonexistent/current/directory").unwrap();
    assert_eq!(elsewhere.path(), path);
}

#[test]
fn the_end_of_a_pull_follows_the_analysis() {
    let path = fresh_dir("finish_pull");
    let repo = init_repo(&path);
    let first = commit_files(&repo, &[("tracked.txt", "one\n")], "first");
    let handle = GitRepository::open(&path, BASE).unwrap();
    let branch = handle.get_current_branch().unwrap();

    let up_to_date = MergeOutlook { up_to_date: true, fast_forward: false };
    assert!(handle.finish_pull(&branch, up_to_date, first).is_ok());
    let diverged = MergeOutlook { up_to_date: false, fast_forward: false };
    match handle.finish_pull(&branch, diverged, first) {
        Err(GitError::OperationFailed(text)) => {
            assert_eq!(text, "Pull requires merge, not implemented yet")
        }
        other => panic!("unexpected result {:?}", other),
    }
    assert_eq!(head_id(&path), first);

    let second = commit_files(&repo, &[("tracked.txt", "two\n")], "second");
    repo.reference(&format!("refs/heads/{}", branch), first, true, "back").unwrap();
    repo.checkout_head(Some(git2::build::CheckoutBuilder::new().force())).unwrap();
    assert_eq!(head_id(&path), first);
    let forward = MergeOutlook { up_to_date: false, fast_forward: true };
    assert!(handle.finish_pull(&branch, forward, second).is_ok());
    assert_eq!(head_id(&path), second);
    assert!(get_repository_status(path.clone(), BASE).unwrap().is_clean);
    assert!(matches!(
        handle.finish_pull("no-such-branch", forward, second),
        Err(GitError::Git2(_))
    ));
}

#[test]
fn branch_entries_hold_what_they_are_given() {
    let entry = branch_entry("origin/main".to_string(), false, true, None);
    assert_eq!(entry.name, "origin/main");
    assert!(!entry.is_current);
    assert!(entry.is_remote);
    assert_eq!(entry.upstream, None);
    assert_eq!((entry.ahead, entry.behind), (0, 0));
    assert_eq!(entry.last_commit_hash, None);
    let entry = branch_entry("main".to_string(), true, false, Some("origin/main".to_string()));
    assert!(entry.is_current);
    assert!(!entry.is_remote);
    assert_eq!(entry.upstream, Some("origin/main".to_string()));
}
