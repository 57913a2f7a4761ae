//! One repository: reading its state and synchronising it with its remote.

use vstd::prelude::*;
use crate::error::{git2_error_text, GitError};
use crate::git::backend::{
    annotated_commit_id, branch_is_head, branch_name, branch_reference, branch_upstream,
    branches_next,
    commit_fields, create_callbacks, error_is_not_found, index_add_all, index_write,
    index_write_tree, oid_text, reference_is_branch, reference_is_remote, reference_peel_commit,
    reference_set_target, reference_shorthand, reference_target, remote_fetch, remote_push,
    repo_branches, repo_checkout_head_forced, repo_commit, repo_find_local_branch,
    repo_find_reference, repo_find_remote, repo_find_tree, repo_graph_ahead_behind, repo_head,
    repo_index, repo_merge_analysis, repo_reference_to_annotated_commit, repo_set_head,
    repo_signature, repo_statuses, repository_open,
};
use crate::git::info::{ahead_behind_counts, assemble_info, commit_info};
use crate::git::message::{message_accepted, stored_message, validate_commit_message};
use crate::git::status::{spec_all_derived, status_of_list};
use crate::git::backend::MergeOutlook;
use crate::git::sync::{
    branch_ref, pull_action, pull_refspec, push_refspec, spec_merge_needed_message,
    spec_no_branch_message, spec_pull_action, PullAction, REMOTE_NAME,
};
use crate::models::branch::BranchInfo;
use crate::models::commit::spec_short_hash;
use crate::models::repository::{CommitInfo, RepositoryInfo};
use crate::models::status::RepoStatus;
use crate::utils::path::{get_repo_name, normalize_path, spec_normalize};

verus! {

/// An open repository, bound to the path it was opened at.
///
/// A handle serves one operation: it is opened, used and dropped, and is never
/// kept or shared between threads.
pub struct GitRepository {
    repo: git2::Repository,
    path: String,
}

/// The name of a branch, given what `HEAD` is: detached where it is no branch,
/// missing where the branch has no name that is text.
pub open spec fn spec_branch_of(is_branch: bool, shorthand: Option<Seq<char>>) -> Result<
    Seq<char>,
    GitError,
> {
    if !is_branch {
        Err(GitError::DetachedHead)
    } else {
        match shorthand {
            Some(name) => Ok(name),
            None => Err(GitError::NoHead),
        }
    }
}

/// Computes [`spec_branch_of`].
pub fn branch_of(is_branch: bool, shorthand: Option<String>) -> (r: Result<String, GitError>)
    ensures
        match r {
            Ok(name) => spec_branch_of(is_branch, crate::text::opt_view(shorthand)) == Ok::<
                Seq<char>,
                GitError,
            >(name@),
            Err(e) => spec_branch_of(is_branch, crate::text::opt_view(shorthand)) == Err::<
                Seq<char>,
                GitError,
            >(e),
        },
{
    if !is_branch {
        return Err(GitError::DetachedHead);
    }
    match shorthand {
        Some(name) => Ok(name),
        None => Err(GitError::NoHead),
    }
}

/// What holds of a branch as [`GitRepository::get_branches`] lists it: the
/// distance to its upstream and its last commit are not filled in.
pub open spec fn spec_is_listed(info: BranchInfo) -> bool {
    info.ahead == 0 && info.behind == 0 && info.last_commit_hash is None
}

/// The entry for a branch in the list of branches: its name, whether it is
/// the current one, whether it is remote-tracking, and the name of its
/// upstream, with nothing else filled in.
pub fn branch_entry(name: String, is_current: bool, is_remote: bool, upstream: Option<String>) -> (info:
    BranchInfo)
    ensures
        info.name == name,
        info.is_current == is_current,
        info.is_remote == is_remote,
        info.upstream == upstream,
        spec_is_listed(info),
{
    let mut info = BranchInfo::new(name);
    info.is_current = is_current;
    info.is_remote = is_remote;
    info.upstream = upstream;
    info
}

impl GitRepository {
    /// The path that the repository was opened at.
    pub closed spec fn path_view(&self) -> Seq<char> {
        self.path@
    }

    /// The path that the repository was opened at.
    pub fn path(&self) -> (p: &str)
        ensures
            p@ == self.path_view(),
    {
        self.path.as_str()
    }

    /// Opens the repository at `path`, which is made absolute against
    /// `current_dir` first (see [`spec_normalize`]); the handle is bound to the
    /// absolute path.
    ///
    /// Fails with `RepoNotFound`, which names the absolute path, where libgit2
    /// finds nothing there, and with `InvalidRepo` where it cannot use what it
    /// finds.
    pub fn open(path: &str, current_dir: &str) -> (r: Result<Self, GitError>)
        ensures
            r matches Ok(repo) ==> repo.path_view() == spec_normalize(path@, current_dir@),
            r matches Err(e) ==> (e matches GitError::RepoNotFound(p) && p@ == spec_normalize(
                path@,
                current_dir@,
            )) || e is InvalidRepo,
    {
        let absolute = normalize_path(path, current_dir);
        match repository_open(absolute.as_str()) {
            Ok(repo) => Ok(Self { repo, path: absolute }),
            Err(e) => {
                if error_is_not_found(&e) {
                    Err(GitError::RepoNotFound(absolute))
                } else {
                    Err(GitError::InvalidRepo(git2_error_text(&e)))
                }
            },
        }
    }

    /// The name of the branch that `HEAD` points to.
    ///
    /// Fails with `NoHead` where the repository has no commit yet, and with
    /// `DetachedHead` where `HEAD` is no branch.
    pub fn get_current_branch(&self) -> (r: Result<String, GitError>)
        ensures
            r matches Err(e) ==> e is NoHead || e is DetachedHead,
    {
        let head = match repo_head(&self.repo) {
            Ok(head) => head,
            Err(_) => {
                return Err(GitError::NoHead);
            },
        };
        branch_of(reference_is_branch(&head), reference_shorthand(&head))
    }

    /// The state of the working tree: every file that differs from the last
    /// commit, untracked files included, with the kind of its change. Nothing in
    /// the repository is changed.
    pub fn get_status(&self) -> (r: Result<RepoStatus, GitError>)
        ensures
            r matches Ok(status) ==> {
                &&& status.path@ == self.path_view()
                &&& status.wf()
                &&& spec_all_derived(status.files@)
            },
            r matches Err(e) ==> e is Git2,
    {
        let statuses = match repo_statuses(&self.repo, true, true) {
            Ok(statuses) => statuses,
            Err(e) => {
                return Err(GitError::Git2(e));
            },
        };
        Ok(status_of_list(self.path.clone(), &statuses))
    }

    /// How many commits the current branch is ahead of its upstream, and how
    /// many behind.
    ///
    /// Fails with `NoHead` where there is no current branch to speak of, with
    /// `BranchNotFound` where the branch that `HEAD` names does not exist, and
    /// with `NoRemote` where the branch has no upstream or the upstream points
    /// nowhere.
    pub fn get_ahead_behind(&self) -> (r: Result<(i32, i32), GitError>)
        ensures
            r matches Ok(ab) ==> ab.0 >= 0 && ab.1 >= 0,
            r matches Err(e) ==> e is NoHead || e is BranchNotFound || e is NoRemote || e is Git2,
    {
        let head = match repo_head(&self.repo) {
            Ok(head) => head,
            Err(_) => {
                return Err(GitError::NoHead);
            },
        };
        let local = match reference_target(&head) {
            Some(id) => id,
            None => {
                return Err(GitError::NoHead);
            },
        };
        let name = match reference_shorthand(&head) {
            Some(name) => name,
            None => {
                return Err(GitError::NoHead);
            },
        };
        let branch = match repo_find_local_branch(&self.repo, name.as_str()) {
            Ok(branch) => branch,
            Err(_) => {
                return Err(GitError::BranchNotFound(name));
            },
        };
        let upstream = match branch_upstream(&branch) {
            Ok(upstream) => upstream,
            Err(_) => {
                return Err(GitError::NoRemote);
            },
        };
        let remote = match reference_target(branch_reference(&upstream)) {
            Some(id) => id,
            None => {
                return Err(GitError::NoRemote);
            },
        };
        match repo_graph_ahead_behind(&self.repo, local, remote) {
            Ok((ahead, behind)) => Ok(ahead_behind_counts(ahead, behind)),
            Err(e) => Err(GitError::Git2(e)),
        }
    }

    /// The summary of the commit that `HEAD` points to, if there is one. Its
    /// short hash is the short form of its hash.
    pub fn last_commit(&self) -> (r: Option<CommitInfo>)
        ensures
            r matches Some(commit) ==> commit.short_hash@ == spec_short_hash(commit.hash@),
    {
        let head = match repo_head(&self.repo) {
            Ok(head) => head,
            Err(_) => {
                return None;
            },
        };
        let object = match reference_peel_commit(&head) {
            Ok(object) => object,
            Err(_) => {
                return None;
            },
        };
        match commit_fields(&object) {
            Some(fields) => Some(commit_info(fields)),
            None => None,
        }
    }

    /// The aggregate view of the repository.
    ///
    /// Only the state of the working tree is needed for it. Whatever else cannot
    /// be had leaves its field empty: no branch where `HEAD` is detached or
    /// there is no commit, no last commit where there is none, and 0 ahead and
    /// 0 behind where the branch has no upstream.
    pub fn get_info(&self) -> (r: Result<RepositoryInfo, GitError>)
        ensures
            r matches Ok(info) ==> info.describes(self.path_view()),
            r matches Err(e) ==> e is Git2,
    {
        let name = get_repo_name(self.path.as_str());
        let branch = self.get_current_branch();
        let status = match self.get_status() {
            Ok(status) => status,
            Err(e) => {
                return Err(e);
            },
        };
        let last_commit = self.last_commit();
        let distance = self.get_ahead_behind();
        Ok(assemble_info(self.path.clone(), name, branch, status, last_commit, distance))
    }

    /// The branches of the repository, local and remote-tracking, each as
    /// [`branch_entry`] makes it of its name, of whether it is the current one,
    /// of whether it is remote-tracking, and of the name of its upstream. A
    /// branch that cannot be read, or whose name is no text, is left out. The
    /// distance to the upstream and the last commit are not looked up here.
    pub fn get_branches(&self) -> (r: Result<Vec<BranchInfo>, GitError>)
        ensures
            r matches Ok(list) ==> forall|i: int|
                0 <= i < list@.len() ==> spec_is_listed(#[trigger] list@[i]),
            r matches Err(e) ==> e is Git2,
    {
        let mut branches = match repo_branches(&self.repo) {
            Ok(branches) => branches,
            Err(e) => {
                return Err(GitError::Git2(e));
            },
        };
        let mut result: Vec<BranchInfo> = Vec::new();
        let mut steps: usize = 0;
        while steps < usize::MAX
            invariant
                forall|k: int| 0 <= k < result@.len() ==> spec_is_listed(#[trigger] result@[k]),
            decreases usize::MAX - steps,
        {
            match branches_next(&mut branches) {
                None => {
                    return Ok(result);
                },
                Some(Ok(branch)) => {
                    match branch_name(&branch) {
                        Ok(Some(name)) => {
                            let upstream = match branch_upstream(&branch) {
                                Ok(upstream) => match branch_name(&upstream) {
                                    Ok(upstream_name) => upstream_name,
                                    Err(_) => None,
                                },
                                Err(_) => None,
                            };
                            result.push(
                                branch_entry(
                                    name,
                                    branch_is_head(&branch),
                                    reference_is_remote(branch_reference(&branch)),
                                    upstream,
                                ),
                            );
                        },
                        _ => {},
                    }
                },
                Some(Err(_)) => {},
            }
            steps += 1;
        }
        Ok(result)
    }
}

impl GitRepository {
    /// Stages every change of the working tree and writes the index.
    pub fn stage_all(&mut self) -> (r: Result<(), GitError>)
        ensures
            final(self).path_view() == old(self).path_view(),
            r matches Err(e) ==> e is Git2,
    {
        let mut index = match repo_index(&self.repo) {
            Ok(index) => index,
            Err(e) => {
                return Err(GitError::Git2(e));
            },
        };
        match index_add_all(&mut index, "*") {
            Ok(_) => {},
            Err(e) => {
                return Err(GitError::Git2(e));
            },
        }
        match index_write(&mut index) {
            Ok(_) => Ok(()),
            Err(e) => Err(GitError::Git2(e)),
        }
    }

    /// Commits what is staged, on top of the commit that `HEAD` points to, as
    /// the identity configured for the repository. Returns the id of the new
    /// commit.
    ///
    /// The message is checked before anything is touched: an empty one, or one
    /// of more than 10000 characters, fails with `OperationFailed`. What is
    /// stored of an accepted message is
    /// [`sanitized`](crate::git::message::sanitized). Fails with `NoHead` where
    /// there is no commit to build on.
    pub fn commit(&mut self, message: &str) -> (r: Result<String, GitError>)
        ensures
            final(self).path_view() == old(self).path_view(),
            !message_accepted(message@) ==> (r matches Err(e) && e is OperationFailed),
            message_accepted(message@) ==> (r matches Err(e) ==> e is NoHead || e is Git2),
    {
        let stored = match stored_message(message) {
            Ok(stored) => stored,
            Err(e) => {
                return Err(e);
            },
        };
        let mut index = match repo_index(&self.repo) {
            Ok(index) => index,
            Err(e) => {
                return Err(GitError::Git2(e));
            },
        };
        let tree_id = match index_write_tree(&mut index) {
            Ok(id) => id,
            Err(e) => {
                return Err(GitError::Git2(e));
            },
        };
        let tree = match repo_find_tree(&self.repo, tree_id) {
            Ok(tree) => tree,
            Err(e) => {
                return Err(GitError::Git2(e));
            },
        };
        let head = match repo_head(&self.repo) {
            Ok(head) => head,
            Err(_) => {
                return Err(GitError::NoHead);
            },
        };
        match reference_peel_commit(&head) {
            Ok(_) => {},
            Err(_) => {
                return Err(GitError::NoHead);
            },
        }
        let signature = match repo_signature(&self.repo) {
            Ok(signature) => signature,
            Err(e) => {
                return Err(GitError::Git2(e));
            },
        };
        match repo_commit(&self.repo, "HEAD", &signature, stored.as_str(), &tree, &head) {
            Ok(id) => Ok(oid_text(id)),
            Err(e) => Err(GitError::Git2(e)),
        }
    }

    /// Stages every change of the working tree and commits it: see
    /// [`GitRepository::commit`]. A message that is not accepted fails before
    /// anything is staged.
    pub fn commit_all(&mut self, message: &str) -> (r: Result<String, GitError>)
        ensures
            final(self).path_view() == old(self).path_view(),
            !message_accepted(message@) ==> (r matches Err(e) && e is OperationFailed),
            message_accepted(message@) ==> (r matches Err(e) ==> e is NoHead || e is Git2),
    {
        match validate_commit_message(message) {
            Ok(_) => {},
            Err(e) => {
                return Err(e);
            },
        }
        match self.stage_all() {
            Ok(_) => {},
            Err(e) => {
                return Err(e);
            },
        }
        self.commit(message)
    }

    /// The name of the branch to synchronise: the one that `HEAD` points to.
    ///
    /// Fails with `NoHead` where there is no commit yet, and with
    /// `OperationFailed` where `HEAD` is detached or the branch has no name that
    /// is text.
    fn branch_to_sync(&self) -> (r: Result<String, GitError>)
        ensures
            r matches Err(e) ==> e is NoHead || e is OperationFailed,
            r matches Err(GitError::OperationFailed(text)) ==> text@ == spec_no_branch_message(),
    {
        let head = match repo_head(&self.repo) {
            Ok(head) => head,
            Err(_) => {
                return Err(GitError::NoHead);
            },
        };
        match branch_of(reference_is_branch(&head), reference_shorthand(&head)) {
            Ok(name) => Ok(name),
            Err(_) => Err(GitError::OperationFailed("No branch name".to_owned())),
        }
    }

    /// Pushes the current branch to the branch of the same name on `origin`.
    ///
    /// `home` and `helper` serve to authenticate: see
    /// [`resolve_credential`](crate::git::credentials::resolve_credential).
    /// Fails with `NoRemote` where there is no `origin`, with `NoHead` or
    /// `OperationFailed` where there is no current branch, and with the error of
    /// libgit2 where the push itself fails.
    pub fn push<F: Fn(String) -> Option<String>>(&self, home: &str, helper: &F) -> (r: Result<
        (),
        GitError,
    >)
        requires
            forall|request: String| helper.requires((request,)),
        ensures
            r matches Err(e) ==> e is NoRemote || e is NoHead || e is OperationFailed || e is Git2,
            r matches Err(GitError::OperationFailed(text)) ==> text@ == spec_no_branch_message(),
    {
        let mut remote = match repo_find_remote(&self.repo, REMOTE_NAME) {
            Ok(remote) => remote,
            Err(_) => {
                return Err(GitError::NoRemote);
            },
        };
        let branch = match self.branch_to_sync() {
            Ok(branch) => branch,
            Err(e) => {
                return Err(e);
            },
        };
        let refspec = push_refspec(branch.as_str());
        match remote_push(&mut remote, refspec.as_str(), create_callbacks(home, helper)) {
            Ok(_) => Ok(()),
            Err(e) => Err(GitError::Git2(e)),
        }
    }

    /// Fetches every remote-tracking reference of `origin`. Local branches are
    /// left as they are.
    ///
    /// `home` and `helper` serve to authenticate, as for
    /// [`GitRepository::push`]. Fails with `NoRemote` where there is no
    /// `origin`, and with the error of libgit2 where the fetch itself fails.
    pub fn fetch<F: Fn(String) -> Option<String>>(&self, home: &str, helper: &F) -> (r: Result<
        (),
        GitError,
    >)
        requires
            forall|request: String| helper.requires((request,)),
        ensures
            r matches Err(e) ==> e is NoRemote || e is Git2,
    {
        let mut remote = match repo_find_remote(&self.repo, REMOTE_NAME) {
            Ok(remote) => remote,
            Err(_) => {
                return Err(GitError::NoRemote);
            },
        };
        let refspecs: Vec<String> = Vec::new();
        match remote_fetch(&mut remote, &refspecs, create_callbacks(home, helper)) {
            Ok(_) => Ok(()),
            Err(e) => Err(GitError::Git2(e)),
        }
    }

    /// Moves the branch called `branch` to the fetched commit `target`, and
    /// makes `HEAD` and the working tree follow.
    fn fast_forward(&self, branch: &str, target: git2::Oid) -> (r: Result<(), GitError>)
        ensures
            r matches Err(e) ==> e is Git2,
    {
        let refname = branch_ref(branch);
        let mut reference = match repo_find_reference(&self.repo, refname.as_str()) {
            Ok(reference) => reference,
            Err(e) => {
                return Err(GitError::Git2(e));
            },
        };
        match reference_set_target(&mut reference, target, "Fast-forward") {
            Ok(_) => {},
            Err(e) => {
                return Err(GitError::Git2(e));
            },
        }
        match repo_set_head(&self.repo, refname.as_str()) {
            Ok(_) => {},
            Err(e) => {
                return Err(GitError::Git2(e));
            },
        }
        match repo_checkout_head_forced(&self.repo, false) {
            Ok(_) => Ok(()),
            Err(e) => Err(GitError::Git2(e)),
        }
    }

    /// Ends a pull once the commit `target` is fetched for the branch called
    /// `branch` and libgit2 has said how it relates to `HEAD`.
    ///
    /// Where the branch already holds the commit, nothing is done and the pull
    /// has succeeded. Where the two have diverged, nothing is done and the pull
    /// fails with `OperationFailed`. Where the branch can move forward, it is
    /// moved, and the pull succeeds unless libgit2 fails at that.
    pub fn finish_pull(&self, branch: &str, outlook: MergeOutlook, target: git2::Oid) -> (r:
        Result<(), GitError>)
        ensures
            spec_pull_action(outlook) == PullAction::Nothing ==> r is Ok,
            spec_pull_action(outlook) == PullAction::Refuse ==> (r matches Err(
                GitError::OperationFailed(text),
            ) && text@ == spec_merge_needed_message()),
            spec_pull_action(outlook) == PullAction::FastForward ==> (r matches Err(e) ==> e
                is Git2),
    {
        match pull_action(outlook) {
            PullAction::Nothing => Ok(()),
            PullAction::FastForward => self.fast_forward(branch, target),
            PullAction::Refuse => Err(
                GitError::OperationFailed("Pull requires merge, not implemented yet".to_owned()),
            ),
        }
    }

    /// Brings the current branch up to date with `origin`, by fast-forward
    /// only.
    ///
    /// The branch is fetched into its remote-tracking reference; then
    /// [`GitRepository::finish_pull`] decides and acts. Where the branch already holds the fetched
    /// commit, nothing changes. Where it is an ancestor of it, the branch moves
    /// forward and the working tree follows. Where the two have diverged, the
    /// pull fails with `OperationFailed` and nothing is changed, for this
    /// library merges nothing.
    pub fn pull<F: Fn(String) -> Option<String>>(&mut self, home: &str, helper: &F) -> (r:
        Result<(), GitError>)
        requires
            forall|request: String| helper.requires((request,)),
        ensures
            final(self).path_view() == old(self).path_view(),
            r matches Err(e) ==> e is NoRemote || e is NoHead || e is OperationFailed || e is Git2,
            r matches Err(GitError::OperationFailed(text)) ==> text@ == spec_no_branch_message()
                || text@ == spec_merge_needed_message(),
    {
        let mut remote = match repo_find_remote(&self.repo, REMOTE_NAME) {
            Ok(remote) => remote,
            Err(_) => {
                return Err(GitError::NoRemote);
            },
        };
        let branch = match self.branch_to_sync() {
            Ok(branch) => branch,
            Err(e) => {
                return Err(e);
            },
        };
        let mut refspecs: Vec<String> = Vec::new();
        refspecs.push(pull_refspec(branch.as_str()));
        match remote_fetch(&mut remote, &refspecs, create_callbacks(home, helper)) {
            Ok(_) => {},
            Err(e) => {
                return Err(GitError::Git2(e));
            },
        }
        let fetch_head = match repo_find_reference(&self.repo, "FETCH_HEAD") {
            Ok(reference) => reference,
            Err(e) => {
                return Err(GitError::Git2(e));
            },
        };
        let fetched = match repo_reference_to_annotated_commit(&self.repo, &fetch_head) {
            Ok(commit) => commit,
            Err(e) => {
                return Err(GitError::Git2(e));
            },
        };
        let outlook = match repo_merge_analysis(&self.repo, &fetched) {
            Ok(outlook) => outlook,
            Err(e) => {
                return Err(GitError::Git2(e));
            },
        };
        let target = annotated_commit_id(&fetched);
        self.finish_pull(branch.as_str(), outlook, target)
    }

    /// Throws away every change of the working tree: tracked files go back to
    /// the last commit and untracked files are removed. This cannot be undone.
    pub fn discard_all_changes(&mut self) -> (r: Result<(), GitError>)
        ensures
            final(self).path_view() == old(self).path_view(),
            r matches Err(e) ==> e is Git2,
    {
        match repo_checkout_head_forced(&self.repo, true) {
            Ok(_) => Ok(()),
            Err(e) => Err(GitError::Git2(e)),
        }
    }
}

/// The aggregate view of the repository at `path`, which is made absolute
/// against `current_dir`: see [`GitRepository::get_info`].
pub fn get_repository_info(path: String, current_dir: &str) -> (r: Result<
    RepositoryInfo,
    GitError,
>)
    ensures
        r matches Ok(info) ==> info.describes(spec_normalize(path@, current_dir@)),
        r matches Err(GitError::RepoNotFound(missing)) ==> missing@ == spec_normalize(
            path@,
            current_dir@,
        ),
        r matches Err(e) ==> e is RepoNotFound || e is InvalidRepo || e is Git2,
{
    match GitRepository::open(path.as_str(), current_dir) {
        Ok(repo) => repo.get_info(),
        Err(e) => Err(e),
    }
}

/// The state of the working tree at `path`, which is made absolute against
/// `current_dir`: see [`GitRepository::get_status`].
pub fn get_repository_status(path: String, current_dir: &str) -> (r: Result<RepoStatus, GitError>)
    ensures
        r matches Ok(status) ==> {
            &&& status.path@ == spec_normalize(path@, current_dir@)
            &&& status.wf()
            &&& spec_all_derived(status.files@)
        },
        r matches Err(GitError::RepoNotFound(missing)) ==> missing@ == spec_normalize(
            path@,
            current_dir@,
        ),
        r matches Err(e) ==> e is RepoNotFound || e is InvalidRepo || e is Git2,
{
    match GitRepository::open(path.as_str(), current_dir) {
        Ok(repo) => repo.get_status(),
        Err(e) => Err(e),
    }
}

/// Stages and commits everything in the repository at `path`, and returns the
/// id of the new commit: see [`GitRepository::commit_all`]. A message that is
/// not accepted fails with `OperationFailed`, unless there is no repository to
/// commit to.
pub fn commit_repository(path: String, current_dir: &str, message: String) -> (r: Result<
    String,
    GitError,
>)
    ensures
        r is Ok ==> message_accepted(message@),
        !message_accepted(message@) ==> (r matches Err(e) && (e is OperationFailed
            || e is RepoNotFound || e is InvalidRepo)),
        r matches Err(GitError::RepoNotFound(missing)) ==> missing@ == spec_normalize(
            path@,
            current_dir@,
        ),
        r matches Err(e) ==> e is RepoNotFound || e is InvalidRepo || e is OperationFailed
            || e is NoHead || e is Git2,
{
    match GitRepository::open(path.as_str(), current_dir) {
        Ok(mut repo) => repo.commit_all(message.as_str()),
        Err(e) => Err(e),
    }
}

/// Pushes the current branch of the repository at `path`: see
/// [`GitRepository::push`].
pub fn push_repository<F: Fn(String) -> Option<String>>(
    path: String,
    current_dir: &str,
    home: &str,
    helper: &F,
) -> (r: Result<(), GitError>)
    requires
        forall|request: String| helper.requires((request,)),
    ensures
        r matches Err(GitError::RepoNotFound(missing)) ==> missing@ == spec_normalize(
            path@,
            current_dir@,
        ),
        r matches Err(GitError::OperationFailed(text)) ==> text@ == spec_no_branch_message(),
        r matches Err(e) ==> e is RepoNotFound || e is InvalidRepo || e is NoRemote || e is NoHead
            || e is OperationFailed || e is Git2,
{
    match GitRepository::open(path.as_str(), current_dir) {
        Ok(repo) => repo.push(home, helper),
        Err(e) => Err(e),
    }
}

/// Fetches into the repository at `path`: see [`GitRepository::fetch`].
pub fn fetch_repository<F: Fn(String) -> Option<String>>(
    path: String,
    current_dir: &str,
    home: &str,
    helper: &F,
) -> (r: Result<(), GitError>)
    requires
        forall|request: String| helper.requires((request,)),
    ensures
        r matches Err(GitError::RepoNotFound(missing)) ==> missing@ == spec_normalize(
            path@,
            current_dir@,
        ),
        r matches Err(e) ==> e is RepoNotFound || e is InvalidRepo || e is NoRemote || e is Git2,
{
    match GitRepository::open(path.as_str(), current_dir) {
        Ok(repo) => repo.fetch(home, helper),
        Err(e) => Err(e),
    }
}

/// Pulls into the repository at `path`: see [`GitRepository::pull`].
pub fn pull_repository<F: Fn(String) -> Option<String>>(
    path: String,
    current_dir: &str,
    home: &str,
    helper: &F,
) -> (r: Result<(), GitError>)
    requires
        forall|request: String| helper.requires((request,)),
    ensures
        r matches Err(GitError::RepoNotFound(missing)) ==> missing@ == spec_normalize(
            path@,
            current_dir@,
        ),
        r matches Err(GitError::OperationFailed(text)) ==> text@ == spec_no_branch_message()
            || text@ == spec_merge_needed_message(),
        r matches Err(e) ==> e is RepoNotFound || e is InvalidRepo || e is NoRemote || e is NoHead
            || e is OperationFailed || e is Git2,
{
    match GitRepository::open(path.as_str(), current_dir) {
        Ok(mut repo) => repo.pull(home, helper),
        Err(e) => Err(e),
    }
}

/// Discards every change in the repository at `path`: see
/// [`GitRepository::discard_all_changes`].
pub fn discard_repository_changes(path: String, current_dir: &str) -> (r: Result<(), GitError>)
    ensures
        r matches Err(GitError::RepoNotFound(missing)) ==> missing@ == spec_normalize(
            path@,
            current_dir@,
        ),
        r matches Err(e) ==> e is RepoNotFound || e is InvalidRepo || e is Git2,
{
    match GitRepository::open(path.as_str(), current_dir) {
        Ok(mut repo) => repo.discard_all_changes(),
        Err(e) => Err(e),
    }
}

} // verus!
