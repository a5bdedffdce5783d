//! Random reordering, and what any reordering leaves unchanged.

use rand::seq::SliceRandom;
use vstd::prelude::*;

verus! {

/// Calls `rand`'s `SliceRandom::shuffle` with the thread-local generator of
/// `rand::rng`. The shuffle only ever swaps two places of the slice, so
/// whatever order comes out, the same items are there, each as often as
/// before. Which order comes out is left open. The generator is seeded from
/// the operating system on first use and gives up if that fails; no argument
/// decides that.
#[verifier::external_body]
pub(crate) fn shuffle_in_place<T>(items: &mut Vec<T>)
    ensures
        final(items)@.to_multiset() == old(items)@.to_multiset(),
{
    items.shuffle(&mut rand::rng());
}

/// `a` holds the same items as `b`, each as often, in some order.
pub open spec fn is_permutation<T>(a: Seq<T>, b: Seq<T>) -> bool {
    a.to_multiset() == b.to_multiset()
}

/// A reordering has the length of what it reorders.
pub proof fn lemma_permutation_len<T>(a: Seq<T>, b: Seq<T>)
    requires
        is_permutation(a, b),
    ensures
        a.len() == b.len(),
{
    a.to_multiset_ensures();
    b.to_multiset_ensures();
}

/// Looking at every item through `f` turns a reordering into a reordering.
pub proof fn lemma_permutation_map<T, U>(a: Seq<T>, b: Seq<T>, f: spec_fn(T) -> U)
    requires
        is_permutation(a, b),
    ensures
        is_permutation(a.map_values(f), b.map_values(f)),
    decreases a.len(),
{
    broadcast use vstd::seq_lib::group_to_multiset_ensures;

    lemma_permutation_len(a, b);
    if a.len() == 0 {
        assert(a.map_values(f) =~= b.map_values(f));
    } else {
        let x = a.last();
        assert(a.to_multiset().count(x) > 0) by {
            assert(a.contains(x));
        }
        assert(b.contains(x));
        let j = choose|j: int| 0 <= j < b.len() && b[j] == x;
        let a0 = a.drop_last();
        let b0 = b.remove(j);
        assert(a0.to_multiset() =~= a.to_multiset().remove(x)) by {
            assert(a0 =~= a.remove(a.len() - 1));
        }
        assert(b0.to_multiset() =~= b.to_multiset().remove(x));
        lemma_permutation_map(a0, b0, f);
        assert(a.map_values(f) =~= a0.map_values(f).push(f(x)));
        assert(b.map_values(f) =~= b0.map_values(f).insert(j, f(x)));
        assert(a0.map_values(f).push(f(x)).to_multiset() =~= a0.map_values(f).to_multiset().insert(
            f(x),
        ));
        assert(b0.map_values(f).insert(j, f(x)).to_multiset() =~= b0.map_values(
            f,
        ).to_multiset().insert(f(x)));
    }
}

} // verus!
