//! Lists without repetition.

use vstd::prelude::*;

verus! {

/// The items of `s` in the order of their first occurrence, each once.
pub open spec fn deduplicated<T>(s: Seq<T>) -> Seq<T>
    decreases s.len(),
{
    if s.len() == 0 {
        Seq::empty()
    } else {
        let before = deduplicated(s.drop_last());
        if before.contains(s.last()) {
            before
        } else {
            before.push(s.last())
        }
    }
}

/// What one more item does to a deduplicated list.
pub proof fn lemma_deduplicated_push<T>(s: Seq<T>, item: T)
    ensures
        deduplicated(s.push(item)) == if deduplicated(s).contains(item) {
            deduplicated(s)
        } else {
            deduplicated(s).push(item)
        },
{
    assert(s.push(item).drop_last() =~= s);
}

/// `seen` followed by the items of `more` that it does not hold yet, each once.
pub open spec fn extended<T>(seen: Seq<T>, more: Seq<T>) -> Seq<T>
    decreases more.len(),
{
    if more.len() == 0 {
        seen
    } else {
        let before = extended(seen, more.drop_last());
        if before.contains(more.last()) {
            before
        } else {
            before.push(more.last())
        }
    }
}

/// Deduplicating two lists end to end is deduplicating the first and
/// extending it by the second.
pub proof fn lemma_deduplicated_concat<T>(first: Seq<T>, second: Seq<T>)
    ensures
        deduplicated(first + second) == extended(deduplicated(first), second),
    decreases second.len(),
{
    if second.len() == 0 {
        assert(first + second =~= first);
    } else {
        lemma_deduplicated_concat(first, second.drop_last());
        assert((first + second).drop_last() =~= first + second.drop_last());
        assert((first + second).last() == second.last());
    }
}

} // verus!
