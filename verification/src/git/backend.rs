//! The calls into libgit2, through the `git2` crate.
//!
//! Every function here is a thin, unverified wrapper around one `git2` call. What
//! a call returns depends on the repository on disk or on a remote, so hardly
//! any of them promises anything about its result: the verified code of this
//! crate is written to behave well whatever comes back. Where the code needs to look
//! into a value of libgit2, the wrapper hands it out as plain values
//! ([`CommitFields`], [`MergeOutlook`], a status record).

use vstd::prelude::*;
use crate::git::credentials::resolve_credential;
use crate::git::status::{record_view, RecordView, StatusFlags, StatusRecord};

verus! {

/// `git2::Cred`, carried through as an opaque value.
#[verifier::external_type_specification]
#[verifier::external_body]
pub struct ExCred(git2::Cred);

/// `git2::Repository`, carried through as an opaque value.
#[verifier::external_type_specification]
#[verifier::external_body]
pub struct ExRepository(git2::Repository);

/// `git2::Reference`, carried through as an opaque value.
#[verifier::external_type_specification]
#[verifier::external_body]
pub struct ExReference<'repo>(git2::Reference<'repo>);

/// `git2::Object`, carried through as an opaque value.
#[verifier::external_type_specification]
#[verifier::external_body]
pub struct ExObject<'repo>(git2::Object<'repo>);

/// `git2::Tree`, carried through as an opaque value.
#[verifier::external_type_specification]
#[verifier::external_body]
pub struct ExTree<'repo>(git2::Tree<'repo>);

/// `git2::BranchType`, which the items of `git2::Branches` hold.
#[verifier::external_type_specification]
#[verifier::external_body]
pub struct ExBranchType(git2::BranchType);

/// `git2::Branches`, carried through as an opaque value.
#[verifier::external_type_specification]
#[verifier::external_body]
pub struct ExBranches<'repo>(git2::Branches<'repo>);

/// `git2::Branch`, carried through as an opaque value.
#[verifier::external_type_specification]
#[verifier::external_body]
pub struct ExBranch<'repo>(git2::Branch<'repo>);

/// `git2::Remote`, carried through as an opaque value.
#[verifier::external_type_specification]
#[verifier::external_body]
pub struct ExRemote<'repo>(git2::Remote<'repo>);

/// `git2::AnnotatedCommit`, carried through as an opaque value.
#[verifier::external_type_specification]
#[verifier::external_body]
pub struct ExAnnotatedCommit<'repo>(git2::AnnotatedCommit<'repo>);

/// `git2::Statuses`, carried through as an opaque value.
#[verifier::external_type_specification]
#[verifier::external_body]
pub struct ExStatuses<'repo>(git2::Statuses<'repo>);

/// `git2::Signature`, carried through as an opaque value.
#[verifier::external_type_specification]
#[verifier::external_body]
pub struct ExSignature<'a>(git2::Signature<'a>);

/// `git2::Index`, carried through as an opaque value.
#[verifier::external_type_specification]
#[verifier::external_body]
pub struct ExIndex(git2::Index);

/// `git2::Oid`, carried through as an opaque value.
#[verifier::external_type_specification]
#[verifier::external_body]
pub struct ExOid(git2::Oid);

/// `git2::RemoteCallbacks`, carried through as an opaque value.
#[verifier::external_type_specification]
#[verifier::external_body]
pub struct ExRemoteCallbacks<'a>(git2::RemoteCallbacks<'a>);

/// What a commit object holds, as plain values. A text is absent where it is not
/// valid UTF-8.
#[derive(Debug, Clone)]
pub struct CommitFields {
    pub id: String,
    pub message: Option<String>,
    pub author: Option<String>,
    pub email: Option<String>,
    pub seconds: i64,
}

/// How the fetched commit relates to `HEAD`, as libgit2's merge analysis sees
/// it.
#[derive(Debug, Clone, Copy)]
pub struct MergeOutlook {
    pub up_to_date: bool,
    pub fast_forward: bool,
}

/// `git2::Repository::open`: opens the repository at `path`.
#[verifier::external_body]
pub(crate) fn repository_open(path: &str) -> (r: Result<git2::Repository, git2::Error>) {
    git2::Repository::open(path)
}

/// `git2::Error::code`: whether libgit2 reported that the thing asked for does
/// not exist.
#[verifier::external_body]
pub(crate) fn error_is_not_found(e: &git2::Error) -> (b: bool) {
    e.code() == git2::ErrorCode::NotFound
}

/// `git2::Repository::head`: the reference that `HEAD` resolves to.
#[verifier::external_body]
pub(crate) fn repo_head<'r>(repo: &'r git2::Repository) -> (r: Result<
    git2::Reference<'r>,
    git2::Error,
>) {
    repo.head()
}

/// `git2::Reference::is_branch`: whether the reference is a local branch.
#[verifier::external_body]
pub(crate) fn reference_is_branch(reference: &git2::Reference<'_>) -> (b: bool) {
    reference.is_branch()
}

/// `git2::Reference::is_remote`: whether the reference is a remote-tracking
/// branch.
#[verifier::external_body]
pub(crate) fn reference_is_remote(reference: &git2::Reference<'_>) -> (b: bool) {
    reference.is_remote()
}

/// `git2::Reference::shorthand`: the short name of the reference, absent where
/// it is not valid UTF-8.
#[verifier::external_body]
pub(crate) fn reference_shorthand(reference: &git2::Reference<'_>) -> (name: Option<String>) {
    reference.shorthand().ok().map(str::to_string)
}

/// `git2::Reference::target`: the commit that a direct reference points to.
#[verifier::external_body]
pub(crate) fn reference_target(reference: &git2::Reference<'_>) -> (id: Option<git2::Oid>) {
    reference.target()
}

/// `git2::Reference::peel` to a commit: the commit object that the reference
/// leads to.
#[verifier::external_body]
pub(crate) fn reference_peel_commit<'r>(reference: &git2::Reference<'r>) -> (r: Result<
    git2::Object<'r>,
    git2::Error,
>) {
    reference.peel(git2::ObjectType::Commit)
}

/// `git2::Reference::set_target`: makes a direct reference point to `id`, with
/// `reflog_message` in its log.
#[verifier::external_body]
pub(crate) fn reference_set_target(
    reference: &mut git2::Reference<'_>,
    id: git2::Oid,
    reflog_message: &str,
) -> (r: Result<(), git2::Error>) {
    reference.set_target(id, reflog_message).map(|_| ())
}

/// Reads the fields of a commit object (`git2::Object::as_commit`): its id as
/// hexadecimal text, message, author's name and address, and time in seconds
/// since the epoch. `None` for an object that is no commit.
#[verifier::external_body]
pub(crate) fn commit_fields(object: &git2::Object<'_>) -> (fields: Option<CommitFields>) {
    object.as_commit().map(
        |commit| CommitFields {
            id: commit.id().to_string(),
            message: commit.message().ok().map(str::to_string),
            author: commit.author().name().ok().map(str::to_string),
            email: commit.author().email().ok().map(str::to_string),
            seconds: commit.time().seconds(),
        },
    )
}

/// The `Display` of a `git2::Oid`: the object id as hexadecimal text.
#[verifier::external_body]
pub(crate) fn oid_text(id: git2::Oid) -> (out: String) {
    id.to_string()
}

/// `git2::Repository::statuses`, with or without untracked files, and with or
/// without descending into untracked directories.
#[verifier::external_body]
pub(crate) fn repo_statuses<'r>(
    repo: &'r git2::Repository,
    include_untracked: bool,
    recurse_untracked_dirs: bool,
) -> (r: Result<git2::Statuses<'r>, git2::Error>) {
    let mut options = git2::StatusOptions::new();
    options.include_untracked(include_untracked);
    options.recurse_untracked_dirs(recurse_untracked_dirs);
    repo.statuses(Some(&mut options))
}

/// What a status list of libgit2 holds: its entries in their order, each as
/// `git2::Statuses::get` hands it out, path and flags.
pub uninterp spec fn spec_status_entries(statuses: git2::Statuses<'_>) -> Seq<RecordView>;

/// `git2::Statuses::len`: the number of entries of a status list.
#[verifier::external_body]
pub(crate) fn statuses_len(statuses: &git2::Statuses<'_>) -> (n: usize)
    ensures
        n == spec_status_entries(*statuses).len(),
{
    statuses.len()
}

/// `git2::Statuses::get`: the entry at `index` as plain values, `None` at and
/// beyond the end of the list.
#[verifier::external_body]
pub(crate) fn statuses_get(statuses: &git2::Statuses<'_>, index: usize) -> (r: Option<
    StatusRecord,
>)
    ensures
        match r {
            Some(record) => index < spec_status_entries(*statuses).len() && record_view(record)
                == spec_status_entries(*statuses)[index as int],
            None => index >= spec_status_entries(*statuses).len(),
        },
{
    let entry = statuses.get(index)?;
    let s = entry.status();
    let flags = StatusFlags {
        wt_new: s.is_wt_new(), index_new: s.is_index_new(),
        wt_modified: s.is_wt_modified(), index_modified: s.is_index_modified(),
        wt_deleted: s.is_wt_deleted(), index_deleted: s.is_index_deleted(),
        wt_renamed: s.is_wt_renamed(), index_renamed: s.is_index_renamed(),
        conflicted: s.is_conflicted(),
    };
    Some(StatusRecord { path: entry.path().ok().map(str::to_string), flags })
}

/// `git2::Repository::find_branch` for a local branch.
#[verifier::external_body]
pub(crate) fn repo_find_local_branch<'r>(repo: &'r git2::Repository, name: &str) -> (r: Result<
    git2::Branch<'r>,
    git2::Error,
>) {
    repo.find_branch(name, git2::BranchType::Local)
}

/// `git2::Branch::upstream`: the remote-tracking branch that a local branch
/// follows.
#[verifier::external_body]
pub(crate) fn branch_upstream<'r>(branch: &git2::Branch<'r>) -> (r: Result<
    git2::Branch<'r>,
    git2::Error,
>) {
    branch.upstream()
}

/// `git2::Branch::get`: the reference that the branch is.
#[verifier::external_body]
pub(crate) fn branch_reference<'a, 'r>(branch: &'a git2::Branch<'r>) -> (reference:
    &'a git2::Reference<'r>) {
    branch.get()
}

/// `git2::Branch::name`: the name of the branch, absent where it is not valid
/// UTF-8.
#[verifier::external_body]
pub(crate) fn branch_name(branch: &git2::Branch<'_>) -> (r: Result<Option<String>, git2::Error>) {
    branch.name().map(|name| name.map(str::to_string))
}

/// `git2::Branch::is_head`: whether `HEAD` points to the branch.
#[verifier::external_body]
pub(crate) fn branch_is_head(branch: &git2::Branch<'_>) -> (b: bool) {
    branch.is_head()
}

/// `git2::Repository::branches` without filter: an iterator over the local and
/// the remote-tracking branches.
#[verifier::external_body]
pub(crate) fn repo_branches<'r>(repo: &'r git2::Repository) -> (r: Result<
    git2::Branches<'r>,
    git2::Error,
>) {
    repo.branches(None)
}

/// `Iterator::next` of `git2::Branches`: the next branch, or the error that
/// libgit2 met in stepping to it; `None` at the end.
#[verifier::external_body]
pub(crate) fn branches_next<'r>(branches: &mut git2::Branches<'r>) -> (r: Option<
    Result<git2::Branch<'r>, git2::Error>,
>) {
    branches.next().map(|item| item.map(|(branch, _)| branch))
}

/// `git2::Repository::graph_ahead_behind`: how many commits `local` has that
/// `upstream` lacks, and the reverse.
#[verifier::external_body]
pub(crate) fn repo_graph_ahead_behind(
    repo: &git2::Repository,
    local: git2::Oid,
    upstream: git2::Oid,
) -> (r: Result<(usize, usize), git2::Error>) {
    repo.graph_ahead_behind(local, upstream)
}

/// `git2::Repository::index`: the index of the repository.
#[verifier::external_body]
pub(crate) fn repo_index(repo: &git2::Repository) -> (r: Result<git2::Index, git2::Error>) {
    repo.index()
}

/// `git2::Index::add_all` with the default options: stages what matches
/// `pathspec`.
#[verifier::external_body]
pub(crate) fn index_add_all(index: &mut git2::Index, pathspec: &str) -> (r: Result<
    (),
    git2::Error,
>) {
    index.add_all([pathspec].iter(), git2::IndexAddOption::DEFAULT, None)
}

/// `git2::Index::write`: writes the index to disk.
#[verifier::external_body]
pub(crate) fn index_write(index: &mut git2::Index) -> (r: Result<(), git2::Error>) {
    index.write()
}

/// `git2::Index::write_tree`: writes the index as a tree and returns its id.
#[verifier::external_body]
pub(crate) fn index_write_tree(index: &mut git2::Index) -> (r: Result<git2::Oid, git2::Error>) {
    index.write_tree()
}

/// `git2::Repository::find_tree`: the tree with the given id.
#[verifier::external_body]
pub(crate) fn repo_find_tree<'r>(repo: &'r git2::Repository, id: git2::Oid) -> (r: Result<
    git2::Tree<'r>,
    git2::Error,
>) {
    repo.find_tree(id)
}

/// `git2::Repository::signature`: the identity configured for the repository,
/// with the current time.
#[verifier::external_body]
pub(crate) fn repo_signature(repo: &git2::Repository) -> (r: Result<
    git2::Signature<'static>,
    git2::Error,
>) {
    repo.signature()
}

/// `git2::Repository::commit` with author and committer the same and with one
/// parent, the commit that the reference `parent` leads to
/// (`git2::Reference::peel_to_commit`): creates the commit and moves
/// `update_ref` to it.
#[verifier::external_body]
pub(crate) fn repo_commit(
    repo: &git2::Repository,
    update_ref: &str,
    signature: &git2::Signature<'_>,
    message: &str,
    tree: &git2::Tree<'_>,
    parent: &git2::Reference<'_>,
) -> (r: Result<git2::Oid, git2::Error>) {
    let parent = parent.peel_to_commit()?;
    repo.commit(Some(update_ref), signature, signature, message, tree, &[&parent])
}

/// `git2::Repository::find_remote`: the remote called `name`.
#[verifier::external_body]
pub(crate) fn repo_find_remote<'r>(repo: &'r git2::Repository, name: &str) -> (r: Result<
    git2::Remote<'r>,
    git2::Error,
>) {
    repo.find_remote(name)
}

/// `git2::Repository::find_reference`: the reference called `name`.
#[verifier::external_body]
pub(crate) fn repo_find_reference<'r>(repo: &'r git2::Repository, name: &str) -> (r: Result<
    git2::Reference<'r>,
    git2::Error,
>) {
    repo.find_reference(name)
}

/// `git2::Repository::reference_to_annotated_commit`: the commit behind a
/// reference, with where it came from.
#[verifier::external_body]
pub(crate) fn repo_reference_to_annotated_commit<'r>(
    repo: &'r git2::Repository,
    reference: &git2::Reference<'_>,
) -> (r: Result<git2::AnnotatedCommit<'r>, git2::Error>) {
    repo.reference_to_annotated_commit(reference)
}

/// `git2::AnnotatedCommit::id`: the id of the commit.
#[verifier::external_body]
pub(crate) fn annotated_commit_id(commit: &git2::AnnotatedCommit<'_>) -> (id: git2::Oid) {
    commit.id()
}

/// `git2::Repository::merge_analysis` for one commit: whether `HEAD` already
/// holds it, and whether `HEAD` can be moved forward to it.
#[verifier::external_body]
pub(crate) fn repo_merge_analysis(
    repo: &git2::Repository,
    their_head: &git2::AnnotatedCommit<'_>,
) -> (r: Result<MergeOutlook, git2::Error>) {
    repo.merge_analysis(&[their_head]).map(
        |(analysis, _)| MergeOutlook {
            up_to_date: analysis.is_up_to_date(),
            fast_forward: analysis.is_fast_forward(),
        },
    )
}

/// `git2::Repository::set_head`: makes `HEAD` point to the reference called
/// `refname`.
#[verifier::external_body]
pub(crate) fn repo_set_head(repo: &git2::Repository, refname: &str) -> (r: Result<
    (),
    git2::Error,
>) {
    repo.set_head(refname)
}

/// `git2::Repository::checkout_head`, forced: makes the working tree match
/// `HEAD`, and removes untracked files where `remove_untracked` is set.
#[verifier::external_body]
pub(crate) fn repo_checkout_head_forced(repo: &git2::Repository, remove_untracked: bool) -> (r:
    Result<(), git2::Error>) {
    let mut options = git2::build::CheckoutBuilder::new();
    options.force().remove_untracked(remove_untracked);
    repo.checkout_head(Some(&mut options))
}

/// `git2::RemoteCallbacks::credentials`: callbacks for a connection to a
/// remote which, whenever libgit2 asks for a credential, answer with what
/// [`resolve_credential`] gives for `home` and `helper`.
#[verifier::external_body]
pub(crate) fn create_callbacks<'a, F: Fn(String) -> Option<String>>(
    home: &'a str,
    helper: &'a F,
) -> (callbacks: git2::RemoteCallbacks<'a>)
    requires
        forall|request: String| helper.requires((request,)),
{
    let mut callbacks = git2::RemoteCallbacks::new();
    callbacks.credentials(
        move |url, user, allowed| {
            let key_pair = allowed.contains(git2::CredentialType::SSH_KEY);
            resolve_credential(url, user, key_pair, home, helper)
        },
    );
    callbacks
}

/// `git2::Remote::fetch` of the given refspecs (all that are configured where
/// none is given), with the given callbacks.
#[verifier::external_body]
pub(crate) fn remote_fetch(
    remote: &mut git2::Remote<'_>,
    refspecs: &Vec<String>,
    callbacks: git2::RemoteCallbacks<'_>,
) -> (r: Result<(), git2::Error>) {
    let mut options = git2::FetchOptions::new();
    options.remote_callbacks(callbacks);
    remote.fetch(refspecs, Some(&mut options), None)
}

/// `git2::Remote::push` of one refspec, with the given callbacks.
#[verifier::external_body]
pub(crate) fn remote_push(
    remote: &mut git2::Remote<'_>,
    refspec: &str,
    callbacks: git2::RemoteCallbacks<'_>,
) -> (r: Result<(), git2::Error>) {
    let mut options = git2::PushOptions::new();
    options.remote_callbacks(callbacks);
    remote.push(&[refspec], Some(&mut options))
}

/// The kind of a credential, as `git2::Cred::credtype` gives it.
pub uninterp spec fn spec_credtype(cred: git2::Cred) -> u32;

/// The kind of a credential made of a user name and a password.
pub const CREDTYPE_USERPASS_PLAINTEXT: u32 = 1;

/// The kind of a credential made of an SSH key, on disk or held by the agent.
pub const CREDTYPE_SSH_KEY: u32 = 2;

/// The kind of the default credential.
pub const CREDTYPE_DEFAULT: u32 = 8;

/// `git2::Cred::default`: the credential for anonymous or negotiated access.
/// Where libgit2 makes one, it is of the default kind.
#[verifier::external_body]
pub(crate) fn cred_default() -> (r: Result<git2::Cred, git2::Error>)
    ensures
        r matches Ok(cred) ==> spec_credtype(cred) == CREDTYPE_DEFAULT,
{
    git2::Cred::default()
}

/// `git2::Cred::ssh_key_from_agent`: a credential that asks the SSH agent for
/// the keys of `username`. Where libgit2 makes one, it is of the SSH key kind.
#[verifier::external_body]
pub(crate) fn cred_ssh_key_from_agent(username: &str) -> (r: Result<git2::Cred, git2::Error>)
    ensures
        r matches Ok(cred) ==> spec_credtype(cred) == CREDTYPE_SSH_KEY,
{
    git2::Cred::ssh_key_from_agent(username)
}

/// `git2::Cred::ssh_key` without passphrase: a credential made of the key files
/// at the given paths. Where libgit2 makes one, it is of the SSH key kind.
#[verifier::external_body]
pub(crate) fn cred_ssh_key(username: &str, public_key: Option<&str>, private_key: &str) -> (r:
    Result<git2::Cred, git2::Error>)
    ensures
        r matches Ok(cred) ==> spec_credtype(cred) == CREDTYPE_SSH_KEY,
{
    git2::Cred::ssh_key(
        username,
        public_key.map(std::path::Path::new),
        std::path::Path::new(private_key),
        None,
    )
}

/// `git2::Cred::userpass_plaintext`: a credential made of a user name and a
/// password. Where libgit2 makes one, it is of the user-and-password kind.
#[verifier::external_body]
pub(crate) fn cred_userpass_plaintext(username: &str, password: &str) -> (r: Result<
    git2::Cred,
    git2::Error,
>)
    ensures
        r matches Ok(cred) ==> spec_credtype(cred) == CREDTYPE_USERPASS_PLAINTEXT,
{
    git2::Cred::userpass_plaintext(username, password)
}

} // verus!
