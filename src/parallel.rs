use vstd::prelude::*;

use rayon::iter::IndexedParallelIterator;
use rayon::iter::IntoParallelRefIterator;
use rayon::iter::IntoParallelRefMutIterator;
use rayon::iter::ParallelIterator;

verus! {

/// Relies on rayon's `par_iter_mut` and `for_each` over a slice: the slice is
/// split into disjoint parts, and each element is handed to exactly one
/// worker, which replaces it by `f` of it.
#[verifier::external_body]
pub(crate) fn par_replace<T: Copy + Send + Sync, F: Fn(T) -> T + Send + Sync>(data: &mut [T], f: F)
    requires
        forall|i: int| 0 <= i < old(data)@.len() ==> f.requires((old(data)@[i],)),
    ensures
        final(data)@.len() == old(data)@.len(),
        forall|i: int| 0 <= i < final(data)@.len() ==> f.ensures((old(data)@[i],), final(data)@[i]),
{
    data.par_iter_mut().for_each(|x| *x = f(*x));
}

/// Relies on rayon's `par_iter`, `map` and `collect_into_vec` over a slice:
/// each element is handed to exactly one worker, and the results are
/// gathered in the order of the elements.
#[verifier::external_body]
pub(crate) fn par_collect<T: Copy + Send + Sync, U: Send, F: Fn(T) -> U + Send + Sync>(data: &[T], f: F) -> (r: Vec<U>)
    requires
        forall|i: int| 0 <= i < data@.len() ==> f.requires((data@[i],)),
    ensures
        r@.len() == data@.len(),
        forall|i: int| 0 <= i < r@.len() ==> f.ensures((data@[i],), r@[i]),
{
    let mut r = Vec::new();
    data.par_iter().map(|x| f(*x)).collect_into_vec(&mut r);
    r
}

} // verus!
