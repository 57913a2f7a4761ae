//! Work handed out to rayon's thread pool.

use vstd::prelude::*;
use rayon::iter::{IntoParallelRefIterator, ParallelIterator};

verus! {

/// Applies `op` to every path on rayon's thread pool
/// (`par_iter().map(..).collect()`): the result holds, for each path and in the
/// order of the paths, what one call of `op` on that path returned.
#[verifier::external_body]
pub(crate) fn par_map<T: Send, G: Fn(&String) -> T + Sync>(paths: &Vec<String>, op: &G) -> (out:
    Vec<T>)
    requires
        forall|i: int| 0 <= i < paths@.len() ==> op.requires((&paths@[i],)),
    ensures
        out@.len() == paths@.len(),
        forall|i: int| 0 <= i < paths@.len() ==> op.ensures((&paths@[i],), #[trigger] out@[i]),
{
    paths.par_iter().map(|path| op(path)).collect()
}

} // verus!
