//! Running one operation on many repositories at once.
//!
//! Every path is handled on its own: its repository is opened, the operation
//! runs, and the handle is dropped. A path that fails is left out of the result
//! and never holds up or fails the others.

use vstd::prelude::*;
use crate::error::GitError;
use crate::git::message::message_accepted;
use crate::git::repository::GitRepository;
use crate::models::repository::RepositoryInfo;
use crate::parallel::par_map;
use crate::utils::path::spec_normalize;

verus! {

/// The paths whose operation succeeded: those at the positions where `outcomes`
/// holds `true`, in their order.
pub open spec fn spec_succeeded(paths: Seq<String>, outcomes: Seq<bool>) -> Seq<String>
    decreases paths.len(),
{
    if paths.len() == 0 || outcomes.len() != paths.len() {
        seq![]
    } else if outcomes.last() {
        spec_succeeded(paths.drop_last(), outcomes.drop_last()).push(paths.last())
    } else {
        spec_succeeded(paths.drop_last(), outcomes.drop_last())
    }
}

/// Computes [`spec_succeeded`].
pub fn succeeded(paths: &Vec<String>, outcomes: &Vec<bool>) -> (kept: Vec<String>)
    requires
        outcomes@.len() == paths@.len(),
    ensures
        kept@ == spec_succeeded(paths@, outcomes@),
{
    let mut kept: Vec<String> = Vec::new();
    let mut i: usize = 0;
    assert(paths@.take(0) =~= Seq::<String>::empty());
    while i < paths.len()
        invariant
            i <= paths.len(),
            outcomes@.len() == paths@.len(),
            kept@ == spec_succeeded(paths@.take(i as int), outcomes@.take(i as int)),
        decreases paths.len() - i,
    {
        proof {
            assert(paths@.take(i + 1).drop_last() =~= paths@.take(i as int));
            assert(outcomes@.take(i + 1).drop_last() =~= outcomes@.take(i as int));
        }
        if outcomes[i] {
            kept.push(paths[i].clone());
            assert(kept@.last() == paths@[i as int]);
        }
        i += 1;
    }
    assert(paths@.take(paths.len() as int) =~= paths@);
    assert(outcomes@.take(outcomes.len() as int) =~= outcomes@);
    kept
}

/// What a batch returns for `paths`: the paths at which the operation succeeded,
/// in the order in which they were given. Which they are is for the repositories
/// to say.
pub open spec fn is_selection_of(kept: Seq<String>, paths: Seq<String>) -> bool {
    exists|outcomes: Seq<bool>|
        outcomes.len() == paths.len() && kept == #[trigger] spec_succeeded(paths, outcomes)
}

/// The paths without repetition: each path once, at the place where it first
/// occurs.
pub open spec fn spec_distinct(paths: Seq<String>) -> Seq<String>
    decreases paths.len(),
{
    if paths.len() == 0 {
        seq![]
    } else {
        let before = spec_distinct(paths.drop_last());
        if crate::text::views(before).contains(paths.last()@) {
            before
        } else {
            before.push(paths.last())
        }
    }
}

/// The distinct paths hold every text of the list, and each of them once: no
/// repository is fetched twice, and none is forgotten.
pub proof fn law_distinct_paths(paths: Seq<String>)
    ensures
        crate::text::views(spec_distinct(paths)).no_duplicates(),
        forall|text: Seq<char>|
            crate::text::views(spec_distinct(paths)).contains(text) <==> crate::text::views(
                paths,
            ).contains(text),
    decreases paths.len(),
{
    let all = crate::text::views(paths);
    let kept = crate::text::views(spec_distinct(paths));
    if paths.len() > 0 {
        let rest = paths.drop_last();
        let before = crate::text::views(spec_distinct(rest));
        let last = paths.last()@;
        law_distinct_paths(rest);
        assert(crate::text::views(rest) =~= all.drop_last());
        if before.contains(last) {
            assert(kept == before);
        } else {
            assert(kept =~= before.push(last));
        }
        let rest_views = crate::text::views(rest);
        assert forall|text: Seq<char>| kept.contains(text) <==> all.contains(text) by {
            if kept.contains(text) {
                let i = choose|i: int| 0 <= i < kept.len() && kept[i] == text;
                if i < before.len() && before[i] == text {
                    assert(before.contains(text));
                    assert(rest_views.contains(text));
                    let j = choose|j: int| 0 <= j < rest_views.len() && rest_views[j] == text;
                    assert(all[j] == text);
                } else {
                    assert(all[all.len() - 1] == text);
                }
            }
            if all.contains(text) {
                let j = choose|j: int| 0 <= j < all.len() && all[j] == text;
                if j < all.len() - 1 {
                    assert(rest_views[j] == text);
                    assert(rest_views.contains(text));
                    assert(before.contains(text));
                    let i = choose|i: int| 0 <= i < before.len() && before[i] == text;
                    assert(kept[i] == text);
                } else {
                    if before.contains(last) {
                    } else {
                        assert(kept[kept.len() - 1] == text);
                    }
                }
            }
        }
    }
}

/// Whether `list` holds a string with the text of `path`.
fn holds(list: &Vec<String>, path: &String) -> (b: bool)
    ensures
        b == crate::text::views(list@).contains(path@),
{
    let mut i: usize = 0;
    while i < list.len()
        invariant
            i <= list.len(),
            forall|k: int| 0 <= k < i ==> crate::text::views(list@)[k] != path@,
        decreases list.len() - i,
    {
        if list[i] == *path {
            assert(crate::text::views(list@)[i as int] == path@);
            return true;
        }
        i += 1;
    }
    false
}

/// Computes [`spec_distinct`]. Paths are compared as text: two spellings of one
/// directory count as two paths.
pub fn distinct_paths(paths: &Vec<String>) -> (out: Vec<String>)
    ensures
        out@ == spec_distinct(paths@),
{
    let mut out: Vec<String> = Vec::new();
    let mut i: usize = 0;
    assert(paths@.take(0) =~= Seq::<String>::empty());
    while i < paths.len()
        invariant
            i <= paths.len(),
            out@ == spec_distinct(paths@.take(i as int)),
        decreases paths.len() - i,
    {
        proof {
            assert(paths@.take(i + 1).drop_last() =~= paths@.take(i as int));
        }
        if !holds(&out, &paths[i]) {
            out.push(paths[i].clone());
            assert(out@.last() == paths@[i as int]);
        }
        i += 1;
    }
    assert(paths@.take(paths.len() as int) =~= paths@);
    out
}

/// Stages and commits everything in the repository at `path`; whether that
/// worked. It never works with a message that is not accepted.
fn commit_at(path: &String, current_dir: &String, message: &String) -> (ok: bool)
    ensures
        ok ==> message_accepted(message@),
{
    match GitRepository::open(path.as_str(), current_dir.as_str()) {
        Ok(mut repo) => repo.commit_all(message.as_str()).is_ok(),
        Err(_) => false,
    }
}

/// Pushes the repository at `path`; whether that worked.
fn push_at<F: Fn(String) -> Option<String> + Sync>(
    path: &String,
    current_dir: &String,
    home: &String,
    helper: &F,
) -> (ok: bool)
    requires
        forall|request: String| helper.requires((request,)),
{
    match GitRepository::open(path.as_str(), current_dir.as_str()) {
        Ok(repo) => repo.push(home.as_str(), helper).is_ok(),
        Err(_) => false,
    }
}

/// Fetches into the repository at `path`; whether that worked.
fn fetch_at<F: Fn(String) -> Option<String> + Sync>(
    path: &String,
    current_dir: &String,
    home: &String,
    helper: &F,
) -> (ok: bool)
    requires
        forall|request: String| helper.requires((request,)),
{
    match GitRepository::open(path.as_str(), current_dir.as_str()) {
        Ok(repo) => repo.fetch(home.as_str(), helper).is_ok(),
        Err(_) => false,
    }
}

/// Pulls into the repository at `path`; whether that worked.
fn pull_at<F: Fn(String) -> Option<String> + Sync>(
    path: &String,
    current_dir: &String,
    home: &String,
    helper: &F,
) -> (ok: bool)
    requires
        forall|request: String| helper.requires((request,)),
{
    match GitRepository::open(path.as_str(), current_dir.as_str()) {
        Ok(mut repo) => repo.pull(home.as_str(), helper).is_ok(),
        Err(_) => false,
    }
}

/// Discards every change in the repository at `path`; whether that worked.
fn discard_at(path: &String, current_dir: &String) -> (ok: bool) {
    match GitRepository::open(path.as_str(), current_dir.as_str()) {
        Ok(mut repo) => repo.discard_all_changes().is_ok(),
        Err(_) => false,
    }
}

/// Where the operation succeeded at no path, no path is returned.
pub proof fn lemma_none_succeeded(paths: Seq<String>, outcomes: Seq<bool>)
    requires
        forall|i: int| 0 <= i < outcomes.len() ==> !outcomes[i],
    ensures
        spec_succeeded(paths, outcomes).len() == 0,
    decreases paths.len(),
{
    if paths.len() > 0 && outcomes.len() == paths.len() {
        lemma_none_succeeded(paths.drop_last(), outcomes.drop_last());
    }
}

/// Commits everything in each of the repositories, all with the same message,
/// and returns the paths at which that worked, as they were given. A relative
/// path is read against `current_dir`. With a message that is not accepted it
/// works at none of them.
pub fn commit_multiple_repositories(paths: Vec<String>, current_dir: String, message: String) -> (r:
    Result<Vec<String>, GitError>)
    ensures
        r is Ok,
        is_selection_of(r->Ok_0@, paths@),
        !message_accepted(message@) ==> r->Ok_0@.len() == 0,
{
    let op = |path: &String| -> (ok: bool)
        ensures
            ok ==> message_accepted(message@),
        { commit_at(path, &current_dir, &message) };
    let outcomes = par_map(&paths, &op);
    proof {
        if !message_accepted(message@) {
            lemma_none_succeeded(paths@, outcomes@);
        }
    }
    Ok(succeeded(&paths, &outcomes))
}

/// Pushes each of the repositories and returns the paths at which that worked,
/// as they were given. A relative path is read against `current_dir`; `home`
/// and `helper` serve to authenticate, as for [`GitRepository::push`].
pub fn push_multiple_repositories<F: Fn(String) -> Option<String> + Sync>(
    paths: Vec<String>,
    current_dir: String,
    home: String,
    helper: &F,
) -> (r: Result<Vec<String>, GitError>)
    requires
        forall|request: String| helper.requires((request,)),
    ensures
        r is Ok,
        is_selection_of(r->Ok_0@, paths@),
{
    let op = |path: &String| -> (ok: bool) { push_at(path, &current_dir, &home, helper) };
    let outcomes = par_map(&paths, &op);
    Ok(succeeded(&paths, &outcomes))
}

/// Fetches into each of the repositories and returns the paths at which that
/// worked, as they were given. A path given more than once is fetched once: the
/// result is a selection of the distinct paths. A relative path is read against
/// `current_dir`; `home` and `helper` serve to authenticate, as for
/// [`GitRepository::fetch`].
pub fn fetch_multiple_repositories<F: Fn(String) -> Option<String> + Sync>(
    paths: Vec<String>,
    current_dir: String,
    home: String,
    helper: &F,
) -> (r: Result<Vec<String>, GitError>)
    requires
        forall|request: String| helper.requires((request,)),
    ensures
        r is Ok,
        is_selection_of(r->Ok_0@, spec_distinct(paths@)),
{
    let unique = distinct_paths(&paths);
    let op = |path: &String| -> (ok: bool) { fetch_at(path, &current_dir, &home, helper) };
    let outcomes = par_map(&unique, &op);
    Ok(succeeded(&unique, &outcomes))
}

/// Pulls into each of the repositories and returns the paths at which that
/// worked, as they were given. A relative path is read against `current_dir`;
/// `home` and `helper` serve to authenticate, as for [`GitRepository::pull`].
pub fn pull_multiple_repositories<F: Fn(String) -> Option<String> + Sync>(
    paths: Vec<String>,
    current_dir: String,
    home: String,
    helper: &F,
) -> (r: Result<Vec<String>, GitError>)
    requires
        forall|request: String| helper.requires((request,)),
    ensures
        r is Ok,
        is_selection_of(r->Ok_0@, paths@),
{
    let op = |path: &String| -> (ok: bool) { pull_at(path, &current_dir, &home, helper) };
    let outcomes = par_map(&paths, &op);
    Ok(succeeded(&paths, &outcomes))
}

/// Discards every change in each of the repositories and returns the paths at
/// which that worked, as they were given. A relative path is read against
/// `current_dir`.
pub fn discard_multiple_repositories(paths: Vec<String>, current_dir: String) -> (r: Result<
    Vec<String>,
    GitError,
>)
    ensures
        r is Ok,
        is_selection_of(r->Ok_0@, paths@),
{
    let op = |path: &String| -> (ok: bool) { discard_at(path, &current_dir) };
    let outcomes = par_map(&paths, &op);
    Ok(succeeded(&paths, &outcomes))
}

/// The aggregate view of the repository at `path`, if it can be had.
fn info_at(path: &String, current_dir: &String) -> (r: Option<RepositoryInfo>)
    ensures
        r matches Some(info) ==> info.describes(spec_normalize(path@, current_dir@)),
{
    match GitRepository::open(path.as_str(), current_dir.as_str()) {
        Ok(repo) => match repo.get_info() {
            Ok(info) => Some(info),
            Err(_) => None,
        },
        Err(_) => None,
    }
}

/// Whether `infos` are the aggregate views of the repositories at `paths`, one
/// for each path and in their order, each path being read against
/// `current_dir`.
pub open spec fn spec_describe_each(
    infos: Seq<RepositoryInfo>,
    paths: Seq<String>,
    current_dir: Seq<char>,
) -> bool {
    &&& infos.len() == paths.len()
    &&& forall|k: int|
        0 <= k < infos.len() ==> (#[trigger] infos[k]).describes(
            spec_normalize(paths[k]@, current_dir),
        )
}

/// The aggregate views of the repositories that can be read, in the order of
/// their paths; a path that cannot be read is left out. A relative path is
/// read against `current_dir`. Each view is what
/// [`GitRepository::get_info`] gives for its repository.
pub fn get_multiple_repository_info(paths: Vec<String>, current_dir: String) -> (infos: Vec<
    RepositoryInfo,
>)
    ensures
        exists|outcomes: Seq<bool>|
            outcomes.len() == paths@.len() && spec_describe_each(
                infos@,
                #[trigger] spec_succeeded(paths@, outcomes),
                current_dir@,
            ),
{
    let op = |path: &String| -> (r: Option<RepositoryInfo>)
        ensures
            r matches Some(info) ==> info.describes(spec_normalize(path@, current_dir@)),
        { info_at(path, &current_dir) };
    let mut found = par_map(&paths, &op);
    let mut infos: Vec<RepositoryInfo> = Vec::new();
    let ghost mut outcomes: Seq<bool> = Seq::empty();
    let n = found.len();
    let mut i: usize = 0;
    proof {
        assert(paths@.take(0) =~= Seq::<String>::empty());
    }
    while i < n
        invariant
            i <= n,
            n == paths@.len(),
            found@.len() == n,
            outcomes.len() == i,
            spec_describe_each(
                infos@,
                spec_succeeded(paths@.take(i as int), outcomes),
                current_dir@,
            ),
            forall|k: int|
                i <= k < n ==> ((#[trigger] found@[k]) matches Some(info) ==> info.describes(
                    spec_normalize(paths@[k]@, current_dir@),
                )),
        decreases n - i,
    {
        let mut item: Option<RepositoryInfo> = None;
        std::mem::swap(&mut found[i], &mut item);
        proof {
            assert(paths@.take(i + 1).drop_last() =~= paths@.take(i as int));
            assert(outcomes.push(item is Some).drop_last() =~= outcomes);
        }
        let ghost worked = item is Some;
        match item {
            Some(info) => {
                infos.push(info);
            },
            None => {},
        }
        proof {
            outcomes = outcomes.push(worked);
        }
        i += 1;
    }
    proof {
        assert(paths@.take(n as int) =~= paths@);
    }
    infos
}

} // verus!
