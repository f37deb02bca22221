use vstd::prelude::*;

use crate::buffer::{get_result, put_result};
use crate::builder::TypedMapping;
use crate::error::MmapError;

verus! {

/// `f` is a pure function of one argument: one argument, one result.
pub open spec fn is_pure1<A, R, F: Fn(A) -> R>(f: F) -> bool {
    forall|a: A, x: R, y: R| #[trigger] f.ensures((a,), x) && #[trigger] f.ensures((a,), y) ==> x == y
}

/// `out` holds, at each index `i`, what `f` gives for `i`.
pub open spec fn results_by_index<T, F: Fn(usize) -> T>(f: F, out: Seq<T>) -> bool {
    forall|i: int| 0 <= i < out.len() ==> f.ensures((i as usize,), #[trigger] out[i])
}

/// `out` holds, at each index, what `f` gives for the element of `input` there.
pub open spec fn results_by_element<T, U, F: Fn(T) -> U>(f: F, input: Seq<T>, out: Seq<U>) -> bool {
    &&& out.len() == input.len()
    &&& forall|i: int| 0 <= i < out.len() ==> f.ensures((input[i],), #[trigger] out[i])
}

/// Records laid over a freshly built mapping can be read at every index
/// below its capacity.
pub proof fn lemma_fresh_buffer_readable<T>(m: TypedMapping<T>, records: Seq<T>)
    requires
        records.len() == m.spec_len(),
    ensures
        forall|i: usize| i < m.spec_len() ==> #[trigger] get_result(records, i) is Ok,
{
}

/// Writing `value` at an index in range and then reading that index gives
/// `value` back.
pub proof fn lemma_put_then_get<T>(records: Seq<T>, index: usize, value: T)
    requires
        index < records.len(),
    ensures
        put_result(records, index, value).0 == Ok::<(), MmapError>(()),
        get_result(put_result(records, index, value).1, index) == Ok::<T, MmapError>(value),
{
}

/// Reading or writing at an index past the end fails with
/// `IndexOutOfRange`, and the records are left as they were.
pub proof fn lemma_out_of_range<T>(records: Seq<T>, index: usize, value: T)
    requires
        index >= records.len(),
    ensures
        get_result(records, index) == Err::<T, MmapError>(
            MmapError::IndexOutOfRange { index, len: records.len() as usize },
        ),
        put_result(records, index, value) == (
            Err::<(), MmapError>(MmapError::IndexOutOfRange { index, len: records.len() as usize }),
            records,
        ),
{
}

/// After a fill with a pure `f`, the records, as the iterator yields them,
/// are exactly `f(0), f(1), ..., f(n - 1)`.
pub proof fn lemma_fill_then_iter<T, F: Fn(usize) -> T>(f: F, filled: Seq<T>, expected: Seq<T>)
    requires
        is_pure1(f),
        filled.len() == expected.len(),
        results_by_index(f, filled),
        results_by_index(f, expected),
    ensures
        filled == expected,
        filled.as_ref() == expected.as_ref(),
{
    assert forall|i: int| 0 <= i < filled.len() implies filled[i] == expected[i] by {
        assert(f.ensures((i as usize,), filled[i]));
        assert(f.ensures((i as usize,), expected[i]));
    }
    assert(filled =~= expected);
}

/// Applying a pure `f` to every element in parallel gives what applying it
/// one element after another gives: the same results, index by index, and
/// so the same set of results.
pub proof fn lemma_parallel_matches_sequential<T, U, F: Fn(T) -> U>(
    f: F,
    input: Seq<T>,
    parallel: Seq<U>,
    sequential: Seq<U>,
)
    requires
        is_pure1(f),
        results_by_element(f, input, parallel),
        results_by_element(f, input, sequential),
    ensures
        parallel == sequential,
        parallel.to_set() == sequential.to_set(),
{
    assert forall|i: int| 0 <= i < parallel.len() implies parallel[i] == sequential[i] by {
        assert(f.ensures((input[i],), parallel[i]));
        assert(f.ensures((input[i],), sequential[i]));
    }
    assert(parallel =~= sequential);
}

/// `cuts` splits `[cuts[0], cuts.last()]` of a sequence of length `len`
/// into consecutive, disjoint ranges.
pub open spec fn is_partition(cuts: Seq<int>, len: int) -> bool {
    &&& cuts.len() >= 1
    &&& 0 <= cuts[0]
    &&& cuts.last() <= len
    &&& forall|k: int| 0 <= k < cuts.len() - 1 ==> #[trigger] cuts[k] <= cuts[k + 1]
}

/// The results of `g` on each range between consecutive cuts, one range
/// after another.
pub open spec fn map_by_parts<T, U>(s: Seq<T>, cuts: Seq<int>, g: spec_fn(T) -> U) -> Seq<U>
    decreases cuts.len(),
{
    if cuts.len() < 2 {
        Seq::empty()
    } else {
        s.subrange(cuts[0], cuts[1]).map_values(g) + map_by_parts(s, cuts.drop_first(), g)
    }
}

/// However a sequence is split into consecutive parts, applying `g` part
/// by part and joining the results gives `g` applied to the whole.
pub proof fn lemma_map_by_parts<T, U>(s: Seq<T>, cuts: Seq<int>, g: spec_fn(T) -> U)
    requires
        is_partition(cuts, s.len() as int),
    ensures
        map_by_parts(s, cuts, g) == s.subrange(cuts[0], cuts.last()).map_values(g),
    decreases cuts.len(),
{
    if cuts.len() < 2 {
        assert(s.subrange(cuts[0], cuts.last()).map_values(g) =~= Seq::<U>::empty());
    } else {
        let rest = cuts.drop_first();
        assert forall|k: int| 0 <= k < rest.len() - 1 implies #[trigger] rest[k] <= rest[k + 1] by {
            assert(cuts[k + 1] <= cuts[k + 2]);
        }
        assert(cuts[0] <= cuts[1]);
        assert(cuts[1] <= cuts.last()) by {
            lemma_cuts_ordered(cuts, 1, cuts.len() - 1);
        }
        lemma_map_by_parts(s, rest, g);
        assert(s.subrange(cuts[0], cuts.last()).map_values(g) =~= s.subrange(cuts[0], cuts[1]).map_values(g)
            + s.subrange(cuts[1], cuts.last()).map_values(g));
    }
}

/// Cuts that grow step by step grow over any distance.
proof fn lemma_cuts_ordered(cuts: Seq<int>, i: int, j: int)
    requires
        0 <= i <= j < cuts.len(),
        forall|k: int| 0 <= k < cuts.len() - 1 ==> #[trigger] cuts[k] <= cuts[k + 1],
    ensures
        cuts[i] <= cuts[j],
    decreases j - i,
{
    if i < j {
        lemma_cuts_ordered(cuts, i, j - 1);
        assert(cuts[j - 1] <= cuts[j]);
    }
}

/// A partition of the whole sequence: the joined parts are `g` applied to
/// every element, so the parallel form equals the sequential one.
pub proof fn lemma_partitioned_map_is_map<T, U>(s: Seq<T>, cuts: Seq<int>, g: spec_fn(T) -> U)
    requires
        is_partition(cuts, s.len() as int),
        cuts[0] == 0,
        cuts.last() == s.len(),
    ensures
        map_by_parts(s, cuts, g) == s.map_values(g),
        map_by_parts(s, cuts, g).to_set() == s.map_values(g).to_set(),
{
    lemma_map_by_parts(s, cuts, g);
    assert(s.subrange(0, s.len() as int) =~= s);
}

} // verus!
