//! What a scan finds, stated over a picture of the directory tree.
//!
//! A scan learns of the disk only through directory listings. [`DirTree`] is the
//! picture that such listings give: for each path, whether anything is there,
//! whether it is a directory and, if so, the names of its subdirectories.
//! [`spec_scan_dir`] says which repositories a scan finds in a tree, subtree by
//! subtree.

use vstd::prelude::*;
use crate::scanner::rules::{spec_enters, spec_marker};
use crate::utils::path::spec_join;

verus! {

/// What is found at one path.
pub enum Listing {
    /// Nothing is there.
    Missing,
    /// Something is there, and it is no directory.
    NotADirectory,
    /// A directory, with the names of its immediate subdirectories. A directory
    /// that cannot be read has none.
    Directory(Seq<Seq<char>>),
}

/// A picture of the directory tree: what is found at each path.
pub type DirTree = spec_fn(Seq<char>) -> Listing;

/// The directory itself, where it is a repository: where one of its
/// subdirectories is the marker.
pub open spec fn spec_own(path: Seq<char>, names: Seq<Seq<char>>) -> Seq<Seq<char>> {
    if names.contains(spec_marker()) {
        seq![path]
    } else {
        seq![]
    }
}

/// The subdirectories that a scan enters, among those listed, in their order.
pub open spec fn spec_entered(names: Seq<Seq<char>>) -> Seq<Seq<char>> {
    names.filter(|name: Seq<char>| spec_enters(name))
}

/// The repositories found at and below `path`, which lies `depth` levels below
/// the root of the scan: none beyond `max_depth` levels and none where `path` is
/// no directory; otherwise the directory itself if it is a repository, followed
/// by what is found below each subdirectory that the scan enters. A repository
/// is entered like any other directory, so repositories inside repositories are
/// found; the marker directory never is.
pub open spec fn spec_scan_dir(tree: DirTree, path: Seq<char>, depth: nat, max_depth: nat) -> Seq<
    Seq<char>,
>
    decreases (max_depth + 1 - depth) as nat, 0nat,
{
    if depth > max_depth {
        seq![]
    } else {
        match tree(path) {
            Listing::Directory(names) => spec_own(path, names) + spec_scan_children(
                tree,
                path,
                spec_entered(names),
                depth + 1,
                max_depth,
            ),
            _ => seq![],
        }
    }
}

/// The repositories found below the subdirectories `names` of `dir`, which lie
/// `depth` levels below the root: those of the first subdirectory, then those
/// of the second, and so on.
pub open spec fn spec_scan_children(
    tree: DirTree,
    dir: Seq<char>,
    names: Seq<Seq<char>>,
    depth: nat,
    max_depth: nat,
) -> Seq<Seq<char>>
    decreases (max_depth + 1 - depth) as nat, names.len() + 1,
{
    if names.len() == 0 {
        seq![]
    } else {
        spec_scan_children(tree, dir, names.drop_last(), depth, max_depth) + spec_scan_dir(
            tree,
            spec_join(dir, names.last()),
            depth,
            max_depth,
        )
    }
}

/// What a scan of `root` finds in `tree`.
pub open spec fn spec_scan(tree: DirTree, root: Seq<char>, max_depth: nat) -> Seq<Seq<char>> {
    spec_scan_dir(tree, root, 0, max_depth)
}

/// Beyond the depth limit nothing is found below any subdirectory.
pub proof fn lemma_nothing_beyond_limit(
    tree: DirTree,
    dir: Seq<char>,
    names: Seq<Seq<char>>,
    depth: nat,
    max_depth: nat,
)
    requires
        depth > max_depth,
    ensures
        spec_scan_children(tree, dir, names, depth, max_depth) == Seq::<Seq<char>>::empty(),
    decreases names.len(),
{
    if names.len() > 0 {
        lemma_nothing_beyond_limit(tree, dir, names.drop_last(), depth, max_depth);
        assert(spec_scan_dir(tree, spec_join(dir, names.last()), depth, max_depth)
            =~= Seq::<Seq<char>>::empty());
        assert(spec_scan_children(tree, dir, names, depth, max_depth) =~= Seq::<
            Seq<char>,
        >::empty());
    }
}

/// The path reached from `from` by going down through the subdirectories
/// `names`, one after the other.
pub open spec fn spec_descend(from: Seq<char>, names: Seq<Seq<char>>) -> Seq<char>
    decreases names.len(),
{
    if names.len() == 0 {
        from
    } else {
        spec_descend(spec_join(from, names.first()), names.drop_first())
    }
}

/// Whether a scan that stands at `from` with `budget` levels left goes down
/// through `names`: at every step the next name is listed in the directory
/// where the scan stands, the scan enters directories of that name, and a level
/// is left to go down.
pub open spec fn spec_walks(tree: DirTree, from: Seq<char>, names: Seq<Seq<char>>, budget: nat) -> bool
    decreases names.len(),
{
    if names.len() == 0 {
        true
    } else {
        &&& budget > 0
        &&& tree(from) matches Listing::Directory(listed) && listed.contains(names.first())
        &&& spec_enters(names.first())
        &&& spec_walks(tree, spec_join(from, names.first()), names.drop_first(), (budget - 1) as nat)
    }
}

/// Whether `path` is a repository in `tree`: a directory with the marker among
/// its subdirectories.
pub open spec fn spec_is_repository(tree: DirTree, path: Seq<char>) -> bool {
    tree(path) matches Listing::Directory(listed) && listed.contains(spec_marker())
}

/// What is found below the subdirectories holds what is found below each of
/// them.
proof fn lemma_children_hold(
    tree: DirTree,
    dir: Seq<char>,
    names: Seq<Seq<char>>,
    depth: nat,
    max_depth: nat,
    k: int,
    p: Seq<char>,
)
    requires
        0 <= k < names.len(),
        spec_scan_dir(tree, spec_join(dir, names[k]), depth, max_depth).contains(p),
    ensures
        spec_scan_children(tree, dir, names, depth, max_depth).contains(p),
    decreases names.len(),
{
    let before = spec_scan_children(tree, dir, names.drop_last(), depth, max_depth);
    let last = spec_scan_dir(tree, spec_join(dir, names.last()), depth, max_depth);
    if k == names.len() - 1 {
        let i = choose|i: int| 0 <= i < last.len() && last[i] == p;
        assert((before + last)[before.len() + i] == p);
    } else {
        lemma_children_hold(tree, dir, names.drop_last(), depth, max_depth, k, p);
        let i = choose|i: int| 0 <= i < before.len() && before[i] == p;
        assert((before + last)[i] == p);
    }
}

/// What is found below the subdirectories was found below one of them.
proof fn lemma_children_came_from(
    tree: DirTree,
    dir: Seq<char>,
    names: Seq<Seq<char>>,
    depth: nat,
    max_depth: nat,
    p: Seq<char>,
) -> (k: int)
    requires
        spec_scan_children(tree, dir, names, depth, max_depth).contains(p),
    ensures
        0 <= k < names.len(),
        spec_scan_dir(tree, spec_join(dir, names[k]), depth, max_depth).contains(p),
    decreases names.len(),
{
    let all = spec_scan_children(tree, dir, names, depth, max_depth);
    if names.len() == 0 {
        assert(all.len() == 0);
        0
    } else {
        let before = spec_scan_children(tree, dir, names.drop_last(), depth, max_depth);
        let last = spec_scan_dir(tree, spec_join(dir, names.last()), depth, max_depth);
        let i = choose|i: int| 0 <= i < all.len() && all[i] == p;
        if i < before.len() {
            assert(before[i] == p);
            lemma_children_came_from(tree, dir, names.drop_last(), depth, max_depth, p)
        } else {
            assert(last[i - before.len()] == p);
            names.len() - 1
        }
    }
}

/// Every repository that a scan returns is reached from where the scan stands
/// by going down through directories that the scan enters, within the levels
/// that are left. The marker directory is not one that a scan enters, so
/// nothing inside it is ever returned.
pub proof fn law_found_is_reached(
    tree: DirTree,
    from: Seq<char>,
    depth: nat,
    max_depth: nat,
    p: Seq<char>,
) -> (names: Seq<Seq<char>>)
    requires
        spec_scan_dir(tree, from, depth, max_depth).contains(p),
    ensures
        depth <= max_depth,
        spec_walks(tree, from, names, (max_depth - depth) as nat),
        p == spec_descend(from, names),
        spec_is_repository(tree, p),
    decreases (max_depth + 1 - depth) as nat,
{
    let all = spec_scan_dir(tree, from, depth, max_depth);
    if depth > max_depth || !(tree(from) is Directory) {
        assert(all.len() == 0);
        seq![]
    } else {
        let listed = tree(from)->Directory_0;
        let own = spec_own(from, listed);
        let entered = spec_entered(listed);
        let below = spec_scan_children(tree, from, entered, depth + 1, max_depth);
        let i = choose|i: int| 0 <= i < all.len() && all[i] == p;
        if i < own.len() {
            assert(own[i] == p);
            seq![]
        } else {
            assert(below[i - own.len()] == p);
            if depth + 1 > max_depth {
                lemma_nothing_beyond_limit(tree, from, entered, depth + 1, max_depth);
            }
            let k = lemma_children_came_from(tree, from, entered, depth + 1, max_depth, p);
            let name = entered[k];
            let rest = law_found_is_reached(
                tree,
                spec_join(from, name),
                depth + 1,
                max_depth,
                p,
            );
            let names = seq![name] + rest;
            assert(names.first() == name);
            assert(names.drop_first() =~= rest);
            listed.lemma_filter_pred(|n: Seq<char>| spec_enters(n), k);
            lemma_filter_came_from(listed, k);
            names
        }
    }
}

/// What a filter keeps was there before.
proof fn lemma_filter_came_from(names: Seq<Seq<char>>, k: int)
    requires
        0 <= k < spec_entered(names).len(),
    ensures
        names.contains(spec_entered(names)[k]),
    decreases names.len(),
{
    reveal(Seq::filter);
    if names.len() > 0 {
        let before = spec_entered(names.drop_last());
        if k < before.len() {
            lemma_filter_came_from(names.drop_last(), k);
            let j = choose|j: int|
                0 <= j < names.drop_last().len() && names.drop_last()[j] == before[k];
            assert(names[j] == before[k]);
        } else {
            assert(names[names.len() - 1] == names.last());
        }
    }
}

/// Every repository that is reached from where the scan stands, by going down
/// through directories that the scan enters and within the levels that are
/// left, is returned: a repository inside another repository, or anywhere below
/// it, is found like any other.
pub proof fn law_reached_is_found(
    tree: DirTree,
    from: Seq<char>,
    depth: nat,
    max_depth: nat,
    names: Seq<Seq<char>>,
)
    requires
        depth <= max_depth,
        spec_walks(tree, from, names, (max_depth - depth) as nat),
        spec_is_repository(tree, spec_descend(from, names)),
    ensures
        spec_scan_dir(tree, from, depth, max_depth).contains(spec_descend(from, names)),
    decreases names.len(),
{
    let p = spec_descend(from, names);
    let all = spec_scan_dir(tree, from, depth, max_depth);
    if names.len() == 0 {
        let listed = tree(from)->Directory_0;
        let own = spec_own(from, listed);
        assert(own[0] == from);
        assert(all[0] == from);
    } else {
        let listed = tree(from)->Directory_0;
        let own = spec_own(from, listed);
        let entered = spec_entered(listed);
        let below = spec_scan_children(tree, from, entered, depth + 1, max_depth);
        let name = names.first();
        law_reached_is_found(tree, spec_join(from, name), depth + 1, max_depth, names.drop_first());
        let j = choose|j: int| 0 <= j < listed.len() && listed[j] == name;
        listed.lemma_filter_contains(|n: Seq<char>| spec_enters(n), j);
        let k = choose|k: int| 0 <= k < entered.len() && entered[k] == name;
        lemma_children_hold(tree, from, entered, depth + 1, max_depth, k, p);
        let i = choose|i: int| 0 <= i < below.len() && below[i] == p;
        assert(all[own.len() + i] == p);
    }
}

/// Searching one directory after the other and searching the subdirectories
/// at the same time return the same set of repositories for one directory
/// tree: each returns what [`spec_scan`] finds in the tree.
pub proof fn law_scan_modes_agree(
    tree: DirTree,
    root: Seq<char>,
    max_depth: nat,
    sequential: Seq<Seq<char>>,
    parallel: Seq<Seq<char>>,
)
    requires
        sequential == spec_scan(tree, root, max_depth),
        parallel == spec_scan(tree, root, max_depth),
    ensures
        sequential.to_set() == parallel.to_set(),
{
}

} // verus!
