//! Order-preserving parallel map, done by rayon's thread pool.

use vstd::prelude::*;

use rayon::iter::{IndexedParallelIterator, IntoParallelIterator, ParallelIterator};

verus! {

/// Relies on rayon's `(0..n).into_par_iter().map(f).collect_into_vec(..)`:
/// `f` is called once for each index below `n`, possibly on several threads
/// at once, and the results are stored in the order of the indices.
#[verifier::external_body]
pub(crate) fn par_map_indices<R: Send, F: Fn(usize) -> R + Sync + Send>(n: usize, f: F) -> (r:
    Vec<R>)
    requires
        forall|i: usize| i < n ==> #[trigger] f.requires((i,)),
    ensures
        r@.len() == n,
        forall|i: int| 0 <= i < n ==> f.ensures((i as usize,), #[trigger] r@[i]),
{
    let mut results = Vec::new();
    (0..n).into_par_iter().map(f).collect_into_vec(&mut results);
    results
}

} // verus!
