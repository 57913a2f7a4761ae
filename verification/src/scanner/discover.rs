//! The scanner: a depth-bounded search for repositories below a directory.
//!
//! The scanner decides where to look and what counts as a repository. Reading
//! the disk is left to its caller, who hands in a *lister*: a function from a
//! path to what is found there, a [`DirListing`].

use vstd::prelude::*;
use crate::error::GitError;
use crate::scanner::rules::{
    check_scan_root, enters, spec_enters, spec_is_system_path, spec_marker,
};
use crate::scanner::tree::{
    spec_entered, spec_own, spec_scan, spec_scan_children, spec_scan_dir, DirTree, Listing,
};
use crate::parallel::par_map;
use crate::text::{concat, str_eq, views};
use crate::utils::path::{path_join, spec_join};

verus! {

/// How deep a scanner looks unless told otherwise.
pub const DEFAULT_MAX_DEPTH: usize = 20;

/// How deep a scanner looks at most, whatever it is told.
pub const ABSOLUTE_MAX_DEPTH: usize = 50;

/// A search for repositories that goes at most `max_depth` levels below its
/// root.
pub struct RepositoryScanner {
    max_depth: usize,
}

/// What a lister found at one path.
#[derive(Debug, Clone)]
pub enum DirListing {
    /// Nothing is there.
    Missing,
    /// Something is there, and it is no directory.
    NotADirectory,
    /// A directory, with the names of its immediate subdirectories; none for a
    /// directory that cannot be read.
    Directory(Vec<String>),
}

impl View for DirListing {
    type V = Listing;

    open spec fn view(&self) -> Listing {
        match self {
            DirListing::Missing => Listing::Missing,
            DirListing::NotADirectory => Listing::NotADirectory,
            DirListing::Directory(names) => Listing::Directory(views(names@)),
        }
    }
}

/// Whether a lister reports the directory tree `tree`: whether, for every path,
/// whatever it may return is what the tree holds there.
pub open spec fn lister_follows<F: Fn(&str) -> DirListing>(lister: &F, tree: DirTree) -> bool {
    forall|path: &str, listing: DirListing| #[trigger]
        lister.ensures((path,), listing) ==> listing@ == tree(path@)
}

/// Whether a scan of `root` is refused in `tree`: where the root lies at or
/// below a system directory, and where nothing is found at the root.
pub open spec fn spec_root_refused(tree: DirTree, root: Seq<char>) -> bool {
    spec_is_system_path(root) || tree(root) is Missing
}

/// Decides whether a scan may start at `canonical_root`. A root at or below a
/// system directory is refused before the lister is asked anything; any other
/// root is refused where the lister finds nothing there.
fn admit_root<F: Fn(&str) -> DirListing>(canonical_root: &str, lister: &F) -> (r: Result<
    (),
    GitError,
>)
    requires
        forall|p: &str| lister.requires((p,)),
    ensures
        spec_is_system_path(canonical_root@) ==> r is Err,
        r matches Err(e) ==> e is PathError,
        forall|tree: DirTree| #[trigger]
            lister_follows(lister, tree) ==> (r is Err <==> spec_root_refused(
                tree,
                canonical_root@,
            )),
{
    match check_scan_root(canonical_root) {
        Ok(_) => {},
        Err(e) => {
            return Err(e);
        },
    }
    let listing = lister(canonical_root);
    assert forall|tree: DirTree| #[trigger] lister_follows(lister, tree) implies listing@ == tree(
        canonical_root@,
    ) by {}
    match listing {
        DirListing::Missing => Err(
            GitError::PathError(concat("Path does not exist: ", canonical_root)),
        ),
        _ => Ok(()),
    }
}

/// Whether the marker is among `names`.
fn has_marker(names: &Vec<String>) -> (b: bool)
    ensures
        b == views(names@).contains(spec_marker()),
{
    let mut i: usize = 0;
    while i < names.len()
        invariant
            i <= names.len(),
            forall|k: int| 0 <= k < i ==> views(names@)[k] != spec_marker(),
        decreases names.len() - i,
    {
        if str_eq(names[i].as_str(), ".git") {
            assert(views(names@)[i as int] == spec_marker());
            return true;
        }
        i += 1;
    }
    false
}

/// One more name is entered or not, and the names before it stay as they were.
proof fn lemma_entered_step(names: Seq<Seq<char>>, i: int)
    requires
        0 <= i < names.len(),
    ensures
        spec_entered(names.take(i + 1)) == if spec_enters(names[i]) {
            spec_entered(names.take(i)).push(names[i])
        } else {
            spec_entered(names.take(i))
        },
{
    reveal(Seq::filter);
    assert(names.take(i + 1).drop_last() =~= names.take(i));
}

/// The paths of the subdirectories `names` of `dir`.
pub open spec fn spec_child_paths(dir: Seq<char>, names: Seq<Seq<char>>) -> Seq<Seq<char>> {
    names.map_values(|name: Seq<char>| spec_join(dir, name))
}

/// The paths of the subdirectories of `dir` that a scan enters, in the order
/// in which they are listed.
fn entered_children(dir: &str, names: &Vec<String>) -> (children: Vec<String>)
    ensures
        views(children@) == spec_child_paths(dir@, spec_entered(views(names@))),
{
    let mut children: Vec<String> = Vec::new();
    let mut i: usize = 0;
    proof {
        assert(views(names@).take(0) =~= Seq::<Seq<char>>::empty());
        reveal(Seq::filter);
        assert(views(children@) =~= spec_child_paths(dir@, spec_entered(views(names@).take(0))));
    }
    while i < names.len()
        invariant
            i <= names.len(),
            views(children@) == spec_child_paths(dir@, spec_entered(views(names@).take(i as int))),
        decreases names.len() - i,
    {
        proof {
            lemma_entered_step(views(names@), i as int);
        }
        if enters(names[i].as_str()) {
            let child = path_join(dir, names[i].as_str());
            let ghost done = spec_entered(views(names@).take(i as int));
            proof {
                let name = views(names@)[i as int];
                assert(views(children@.push(child)) =~= views(children@).push(child@));
                assert(spec_child_paths(dir@, done.push(name)) =~= spec_child_paths(dir@, done).push(
                    spec_join(dir@, name),
                ));
            }
            children.push(child);
        }
        i += 1;
    }
    assert(views(names@).take(names@.len() as int) =~= views(names@));
    children
}

impl RepositoryScanner {
    /// How many levels below its root the scanner looks.
    pub closed spec fn depth_limit(&self) -> nat {
        self.max_depth as nat
    }

    /// What holds of every scanner: its limit is at most
    /// [`ABSOLUTE_MAX_DEPTH`].
    #[verifier::type_invariant]
    pub closed spec fn wf(&self) -> bool {
        self.max_depth <= ABSOLUTE_MAX_DEPTH
    }

    /// A scanner that looks [`DEFAULT_MAX_DEPTH`] levels deep.
    pub fn new() -> (scanner: Self)
        ensures
            scanner.depth_limit() == DEFAULT_MAX_DEPTH,
    {
        Self { max_depth: DEFAULT_MAX_DEPTH }
    }

    /// A scanner that looks `max_depth` levels deep, or
    /// [`ABSOLUTE_MAX_DEPTH`] levels where more is asked for.
    pub fn with_max_depth(max_depth: usize) -> (scanner: Self)
        ensures
            scanner.depth_limit() == if max_depth <= ABSOLUTE_MAX_DEPTH {
                max_depth as nat
            } else {
                ABSOLUTE_MAX_DEPTH as nat
            },
    {
        if max_depth <= ABSOLUTE_MAX_DEPTH {
            Self { max_depth }
        } else {
            Self { max_depth: ABSOLUTE_MAX_DEPTH }
        }
    }

    /// The depth limit of the scanner, which never exceeds
    /// [`ABSOLUTE_MAX_DEPTH`].
    pub fn max_depth(&self) -> (d: usize)
        ensures
            d == self.depth_limit(),
            d <= ABSOLUTE_MAX_DEPTH,
    {
        proof {
            use_type_invariant(self);
        }
        self.max_depth
    }

    /// Adds to `repos` what is found at and below `path`, `depth` levels below
    /// the root, one directory after the other.
    fn scan_recursive<F: Fn(&str) -> DirListing>(
        &self,
        path: &str,
        depth: usize,
        lister: &F,
        repos: &mut Vec<String>,
    )
        requires
            depth <= self.depth_limit() + 1,
            forall|p: &str| lister.requires((p,)),
        ensures
            forall|tree: DirTree| #[trigger]
                lister_follows(lister, tree) ==> views(final(repos)@) == views(old(repos)@)
                    + spec_scan_dir(tree, path@, depth as nat, self.depth_limit()),
        decreases self.depth_limit() + 1 - depth,
    {
        let ghost before = views(repos@);
        proof {
            use_type_invariant(self);
        }
        if depth > self.max_depth {
            assert forall|tree: DirTree| #[trigger] lister_follows(lister, tree) implies views(
                repos@,
            ) == before + spec_scan_dir(tree, path@, depth as nat, self.depth_limit()) by {
                assert(before + Seq::<Seq<char>>::empty() =~= before);
            }
            return ;
        }
        let listing = lister(path);
        let names = match listing {
            DirListing::Directory(names) => names,
            _ => {
                assert forall|tree: DirTree| #[trigger] lister_follows(lister, tree) implies views(
                    repos@,
                ) == before + spec_scan_dir(tree, path@, depth as nat, self.depth_limit()) by {
                    assert(listing@ == tree(path@));
                    assert(before + Seq::<Seq<char>>::empty() =~= before);
                }
                return ;
            },
        };
        if has_marker(&names) {
            repos.push(path.to_owned());
            assert(views(repos@) =~= before + seq![path@]);
        }
        assert(views(repos@) =~= before + spec_own(path@, views(names@)));
        let ghost own = spec_own(path@, views(names@));
        let mut i: usize = 0;
        proof {
            assert(views(names@).take(0) =~= Seq::<Seq<char>>::empty());
            reveal(Seq::filter);
            assert forall|tree: DirTree| #[trigger] lister_follows(lister, tree) implies views(
                repos@,
            ) == before + own + spec_scan_children(
                tree,
                path@,
                spec_entered(views(names@).take(0)),
                (depth + 1) as nat,
                self.depth_limit(),
            ) by {
                assert(before + own + Seq::<Seq<char>>::empty() =~= before + own);
            }
        }
        while i < names.len()
            invariant
                self.max_depth <= ABSOLUTE_MAX_DEPTH,
                i <= names.len(),
                depth <= self.depth_limit(),
                forall|p: &str| lister.requires((p,)),
                own == spec_own(path@, views(names@)),
                forall|tree: DirTree| #[trigger]
                    lister_follows(lister, tree) ==> views(repos@) == before + own
                        + spec_scan_children(
                        tree,
                        path@,
                        spec_entered(views(names@).take(i as int)),
                        (depth + 1) as nat,
                        self.depth_limit(),
                    ),
            decreases names.len() - i,
        {
            let ghost so_far = views(repos@);
            let ghost done = spec_entered(views(names@).take(i as int));
            proof {
                lemma_entered_step(views(names@), i as int);
            }
            if enters(names[i].as_str()) {
                let child = path_join(path, names[i].as_str());
                self.scan_recursive(child.as_str(), depth + 1, lister, repos);
                assert forall|tree: DirTree| #[trigger] lister_follows(lister, tree) implies views(
                    repos@,
                ) == before + own + spec_scan_children(
                    tree,
                    path@,
                    spec_entered(views(names@).take(i + 1)),
                    (depth + 1) as nat,
                    self.depth_limit(),
                ) by {
                    let next = done.push(views(names@)[i as int]);
                    assert(next.drop_last() =~= done);
                    assert(views(repos@) =~= so_far + spec_scan_dir(
                        tree,
                        child@,
                        (depth + 1) as nat,
                        self.depth_limit(),
                    ));
                }
            }
            i += 1;
        }
        assert forall|tree: DirTree| #[trigger] lister_follows(lister, tree) implies views(repos@)
            == before + spec_scan_dir(tree, path@, depth as nat, self.depth_limit()) by {
            assert(listing@ == tree(path@));
            assert(views(names@).take(names@.len() as int) =~= views(names@));
            let below = spec_scan_children(
                tree,
                path@,
                spec_entered(views(names@)),
                (depth + 1) as nat,
                self.depth_limit(),
            );
            assert(before + own + below =~= before + (own + below));
        }
    }

    /// Finds the repositories at and below `canonical_root`, one directory
    /// after the other.
    ///
    /// The root is expected in canonical form. A root at or below a system
    /// directory is refused with `PathError`, before the lister is asked
    /// anything, and so is a root at which the lister finds nothing. Every other
    /// scan succeeds, also where the root is no directory; where the lister
    /// reports a directory tree, the result is what [`spec_scan`] finds in that
    /// tree.
    pub fn scan<F: Fn(&str) -> DirListing>(&self, canonical_root: &str, lister: &F) -> (r:
        Result<Vec<String>, GitError>)
        requires
            forall|p: &str| lister.requires((p,)),
        ensures
            spec_is_system_path(canonical_root@) ==> r is Err,
            r matches Err(e) ==> e is PathError,
            forall|tree: DirTree| #[trigger]
                lister_follows(lister, tree) ==> {
                    &&& r is Err <==> spec_root_refused(tree, canonical_root@)
                    &&& r matches Ok(repos) ==> views(repos@) == spec_scan(
                        tree,
                        canonical_root@,
                        self.depth_limit(),
                    )
                },
    {
        match admit_root(canonical_root, lister) {
            Ok(_) => {},
            Err(e) => {
                return Err(e);
            },
        }
        let mut repos: Vec<String> = Vec::new();
        self.scan_recursive(canonical_root, 0, lister, &mut repos);
        assert forall|tree: DirTree| #[trigger] lister_follows(lister, tree) implies views(repos@)
            == spec_scan(tree, canonical_root@, self.depth_limit()) by {
            assert(Seq::<Seq<char>>::empty() + spec_scan(
                tree,
                canonical_root@,
                self.depth_limit(),
            ) =~= spec_scan(tree, canonical_root@, self.depth_limit()));
        }
        Ok(repos)
    }
}

impl RepositoryScanner {
    /// What is found at and below `path`, `depth` levels below the root, the
    /// subdirectories of each directory being searched at the same time.
    fn scan_parallel_recursive<F: Fn(&str) -> DirListing + Sync>(
        &self,
        path: &str,
        depth: usize,
        lister: &F,
    ) -> (repos: Vec<String>)
        requires
            depth <= self.depth_limit() + 1,
            forall|p: &str| lister.requires((p,)),
        ensures
            forall|tree: DirTree| #[trigger]
                lister_follows(lister, tree) ==> views(repos@) == spec_scan_dir(
                    tree,
                    path@,
                    depth as nat,
                    self.depth_limit(),
                ),
        decreases self.depth_limit() + 1 - depth,
    {
        let mut repos: Vec<String> = Vec::new();
        proof {
            use_type_invariant(self);
        }
        if depth > self.max_depth {
            return repos;
        }
        let listing = lister(path);
        let names = match listing {
            DirListing::Directory(names) => names,
            _ => {
                assert forall|tree: DirTree| #[trigger] lister_follows(lister, tree) implies views(
                    repos@,
                ) == spec_scan_dir(tree, path@, depth as nat, self.depth_limit()) by {
                    assert(listing@ == tree(path@));
                }
                return repos;
            },
        };
        if has_marker(&names) {
            repos.push(path.to_owned());
            assert(views(repos@) =~= seq![path@]);
        }
        let ghost own = spec_own(path@, views(names@));
        assert(views(repos@) =~= own);
        let children = entered_children(path, &names);
        let ghost entered = spec_entered(views(names@));
        let op = |child: &String| -> (found: Vec<String>)
            ensures
                forall|tree: DirTree| #[trigger]
                    lister_follows(lister, tree) ==> views(found@) == spec_scan_dir(
                        tree,
                        child@,
                        (depth + 1) as nat,
                        self.depth_limit(),
                    ),
            { self.scan_parallel_recursive(child.as_str(), depth + 1, lister) };
        let mut found = par_map(&children, &op);
        let n = found.len();
        let mut j: usize = 0;
        proof {
            assert(views(children@).len() == children@.len());
            assert(spec_child_paths(path@, entered).len() == entered.len());
            assert(entered.take(0) =~= Seq::<Seq<char>>::empty());
            assert forall|tree: DirTree| #[trigger] lister_follows(lister, tree) implies views(
                repos@,
            ) == own + spec_scan_children(
                tree,
                path@,
                entered.take(0),
                (depth + 1) as nat,
                self.depth_limit(),
            ) by {
                assert(own + Seq::<Seq<char>>::empty() =~= own);
            }
        }
        while j < n
            invariant
                j <= n,
                n == found@.len(),
                n == children@.len(),
                n == entered.len(),
                views(children@) == spec_child_paths(path@, entered),
                forall|k: int|
                    j <= k < n ==> (forall|tree: DirTree| #[trigger]
                        lister_follows(lister, tree) ==> views((#[trigger] found@[k])@)
                            == spec_scan_dir(
                            tree,
                            children@[k]@,
                            (depth + 1) as nat,
                            self.depth_limit(),
                        )),
                forall|tree: DirTree| #[trigger]
                    lister_follows(lister, tree) ==> views(repos@) == own + spec_scan_children(
                        tree,
                        path@,
                        entered.take(j as int),
                        (depth + 1) as nat,
                        self.depth_limit(),
                    ),
            decreases n - j,
        {
            let ghost so_far = views(repos@);
            let ghost list = views(found@[j as int]@);
            let mut taken: Vec<String> = Vec::new();
            std::mem::swap(&mut found[j], &mut taken);
            repos.append(&mut taken);
            proof {
                assert(views(repos@) =~= so_far + list);
                assert(entered.take(j + 1).drop_last() =~= entered.take(j as int));
                assert(views(children@)[j as int] == spec_join(path@, entered[j as int]));
            }
            j += 1;
        }
        assert forall|tree: DirTree| #[trigger] lister_follows(lister, tree) implies views(repos@)
            == spec_scan_dir(tree, path@, depth as nat, self.depth_limit()) by {
            assert(listing@ == tree(path@));
            assert(entered.take(n as int) =~= entered);
        }
        repos
    }

    /// Finds the repositories at and below `canonical_root`, searching the
    /// subdirectories of each directory at the same time.
    ///
    /// It refuses what [`RepositoryScanner::scan`] refuses and, where the
    /// lister reports a directory tree, finds what `scan` finds.
    pub fn scan_parallel<F: Fn(&str) -> DirListing + Sync>(
        &self,
        canonical_root: &str,
        lister: &F,
    ) -> (r: Result<Vec<String>, GitError>)
        requires
            forall|p: &str| lister.requires((p,)),
        ensures
            spec_is_system_path(canonical_root@) ==> r is Err,
            r matches Err(e) ==> e is PathError,
            forall|tree: DirTree| #[trigger]
                lister_follows(lister, tree) ==> {
                    &&& r is Err <==> spec_root_refused(tree, canonical_root@)
                    &&& r matches Ok(repos) ==> views(repos@) == spec_scan(
                        tree,
                        canonical_root@,
                        self.depth_limit(),
                    )
                },
    {
        match admit_root(canonical_root, lister) {
            Ok(_) => {},
            Err(e) => {
                return Err(e);
            },
        }
        let repos = self.scan_parallel_recursive(canonical_root, 0, lister);
        Ok(repos)
    }
}

impl Default for RepositoryScanner {
    fn default() -> (scanner: Self)
        ensures
            scanner.depth_limit() == DEFAULT_MAX_DEPTH,
    {
        Self::new()
    }
}

/// Finds the repositories at and below `canonical_root` with a scanner of the
/// default depth, in parallel: see [`RepositoryScanner::scan_parallel`].
pub fn scan_repositories<F: Fn(&str) -> DirListing + Sync>(
    canonical_root: String,
    lister: &F,
) -> (r: Result<Vec<String>, GitError>)
    requires
        forall|p: &str| lister.requires((p,)),
    ensures
        spec_is_system_path(canonical_root@) ==> r is Err,
        r matches Err(e) ==> e is PathError,
        forall|tree: DirTree| #[trigger]
            lister_follows(lister, tree) ==> {
                &&& r is Err <==> spec_root_refused(tree, canonical_root@)
                &&& r matches Ok(repos) ==> views(repos@) == spec_scan(
                    tree,
                    canonical_root@,
                    DEFAULT_MAX_DEPTH as nat,
                )
            },
{
    let scanner = RepositoryScanner::new();
    scanner.scan_parallel(canonical_root.as_str(), lister)
}

} // verus!
