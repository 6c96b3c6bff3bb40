//! Views of the standard library's types that it has none for.

use vstd::prelude::*;

verus! {

/// The view of a `Result`: the view of what it holds.
pub open spec fn result_view<T: View, E: View>(result: Result<T, E>) -> Result<T::V, E::V> {
    match result {
        Ok(value) => Ok(value@),
        Err(error) => Err(error@),
    }
}

/// Keeping and mapping none of the elements gives nothing.
pub proof fn lemma_filter_map_none<A, B>(s: Seq<A>, keep: spec_fn(A) -> bool, f: spec_fn(A) -> B)
    ensures
        s.take(0).filter(keep).map_values(f) == Seq::<B>::empty(),
{
    reveal(Seq::filter);
}

/// What keeping the elements that `keep` holds of, and mapping them by
/// `f`, gives for one element more.
pub proof fn lemma_filter_map_step<A, B>(
    s: Seq<A>,
    i: int,
    keep: spec_fn(A) -> bool,
    f: spec_fn(A) -> B,
)
    requires
        0 <= i < s.len(),
    ensures
        s.take(i + 1).filter(keep).map_values(f) == if keep(s[i]) {
            s.take(i).filter(keep).map_values(f).push(f(s[i]))
        } else {
            s.take(i).filter(keep).map_values(f)
        },
{
    reveal(Seq::filter);
    assert(s.take(i + 1).drop_last() =~= s.take(i));
}

} // verus!
