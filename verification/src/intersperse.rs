//! Putting a separator between every two neighbours of a list.

use vstd::prelude::*;

verus! {

/// How many slots `count` items take once a separator stands between each pair.
pub open spec fn interspersed_len(count: nat) -> nat {
    if count == 0 {
        0
    } else {
        (2 * count - 1) as nat
    }
}

/// The items on the even slots, in order, and the separator on every odd
/// slot: nothing before the first item and nothing after the last.
pub open spec fn interspersed<T>(items: Seq<T>, separator: T) -> Seq<T> {
    Seq::new(
        interspersed_len(items.len()),
        |slot: int|
            if slot % 2 == 0 {
                items[slot / 2]
            } else {
                separator
            },
    )
}

/// `rounds` copies of `block`, with one separator between each two copies.
pub open spec fn repeated<T>(block: Seq<T>, separator: T, rounds: nat) -> Seq<T>
    decreases rounds,
{
    if rounds == 0 {
        Seq::empty()
    } else if rounds == 1 {
        block
    } else {
        repeated(block, separator, (rounds - 1) as nat).push(separator) + block
    }
}

/// One more item extends the interspersed list by a separator and the item,
/// or by the item alone when it is the first.
pub proof fn lemma_interspersed_push<T>(items: Seq<T>, separator: T, item: T)
    ensures
        interspersed(items.push(item), separator) == if items.len() == 0 {
            seq![item]
        } else {
            interspersed(items, separator).push(separator).push(item)
        },
{
    let longer = interspersed(items.push(item), separator);
    if items.len() == 0 {
        assert(longer =~= seq![item]);
    } else {
        let shorter = interspersed(items, separator).push(separator).push(item);
        assert(longer.len() == shorter.len());
        assert forall|slot: int| 0 <= slot < longer.len() implies longer[slot] == shorter[slot] by {
            if slot < 2 * items.len() - 1 {
                if slot % 2 == 0 {
                    assert(slot / 2 < items.len());
                }
            }
        }
        assert(longer =~= shorter);
    }
}

/// `slots` holds `items` on its even slots, in order, and something that
/// `separates` on every odd slot: nothing before the first item and nothing
/// after the last.
pub open spec fn interleaves<T>(slots: Seq<T>, items: Seq<T>, separates: spec_fn(T) -> bool) -> bool {
    &&& slots.len() == interspersed_len(items.len())
    &&& forall|slot: int|
        0 <= slot < slots.len() ==> if slot % 2 == 0 {
            #[trigger] slots[slot] == items[slot / 2]
        } else {
            separates(slots[slot])
        }
}

/// Without its last item and the separator before it, an interleaved list
/// interleaves the items but the last.
proof fn lemma_interleaves_shorter<T>(slots: Seq<T>, items: Seq<T>, separates: spec_fn(T) -> bool)
    requires
        interleaves(slots, items, separates),
        items.len() >= 2,
    ensures
        interleaves(slots.subrange(0, slots.len() - 2), items.drop_last(), separates),
        slots == slots.subrange(0, slots.len() - 2).push(slots[slots.len() - 2]).push(items.last()),
        separates(slots[slots.len() - 2]),
{
    let shorter = slots.subrange(0, slots.len() - 2);
    assert forall|slot: int| 0 <= slot < shorter.len() implies if slot % 2 == 0 {
        #[trigger] shorter[slot] == items.drop_last()[slot / 2]
    } else {
        separates(shorter[slot])
    } by {
        assert(shorter[slot] == slots[slot]);
    }
    assert(slots[slots.len() - 1] == items[(slots.len() - 1) / 2]);
    assert((slots.len() - 2) % 2 == 1);
    assert(slots =~= shorter.push(slots[slots.len() - 2]).push(items.last()));
}

/// Taking the separators out of an interleaved list gives the items back.
pub proof fn lemma_items_of_interleaved<T>(
    slots: Seq<T>,
    items: Seq<T>,
    separates: spec_fn(T) -> bool,
    kept: spec_fn(T) -> bool,
)
    requires
        interleaves(slots, items, separates),
        forall|slot: T| #[trigger] separates(slot) ==> !kept(slot),
        forall|i: int| 0 <= i < items.len() ==> kept(#[trigger] items[i]),
    ensures
        slots.filter(kept) == items,
    decreases items.len(),
{
    reveal(Seq::filter);
    if items.len() == 0 {
        assert(slots =~= Seq::<T>::empty());
        assert(items =~= Seq::<T>::empty());
    } else if items.len() == 1 {
        assert(slots[0] == items[0]);
        assert(slots =~= seq![items[0]]);
        assert(slots.drop_last() =~= Seq::<T>::empty());
        assert(slots.last() == items[0]);
        assert(slots.drop_last().filter(kept) =~= Seq::<T>::empty());
        assert(slots.filter(kept) =~= seq![items[0]]);
        assert(items =~= seq![items[0]]);
    } else {
        lemma_interleaves_shorter(slots, items, separates);
        let shorter = slots.subrange(0, slots.len() - 2);
        let between = slots[slots.len() - 2];
        lemma_items_of_interleaved(shorter, items.drop_last(), separates, kept);
        shorter.lemma_filter_push(between, kept);
        shorter.push(between).lemma_filter_push(items.last(), kept);
        assert(items =~= items.drop_last().push(items.last()));
    }
}

/// Keeping only the separators of an interleaved list leaves one fewer than
/// there are items.
pub proof fn lemma_separators_of_interleaved<T>(
    slots: Seq<T>,
    items: Seq<T>,
    separates: spec_fn(T) -> bool,
    kept: spec_fn(T) -> bool,
)
    requires
        interleaves(slots, items, separates),
        forall|slot: T| #[trigger] separates(slot) ==> kept(slot),
        forall|i: int| 0 <= i < items.len() ==> !kept(#[trigger] items[i]),
    ensures
        slots.filter(kept).len() == if items.len() == 0 {
            0
        } else {
            items.len() - 1
        },
    decreases items.len(),
{
    reveal(Seq::filter);
    if items.len() == 0 {
        assert(slots =~= Seq::<T>::empty());
    } else if items.len() == 1 {
        assert(slots[0] == items[0]);
        assert(slots.drop_last() =~= Seq::<T>::empty());
        assert(slots.last() == items[0]);
        assert(slots.drop_last().filter(kept) =~= Seq::<T>::empty());
        assert(slots.filter(kept) =~= Seq::<T>::empty());
    } else {
        lemma_interleaves_shorter(slots, items, separates);
        let shorter = slots.subrange(0, slots.len() - 2);
        let between = slots[slots.len() - 2];
        lemma_separators_of_interleaved(shorter, items.drop_last(), separates, kept);
        shorter.lemma_filter_push(between, kept);
        shorter.push(between).lemma_filter_push(items.last(), kept);
    }
}

} // verus!
