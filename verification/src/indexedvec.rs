//! An ordered collection that remembers which of its items is current.

use crate::shuffle::{is_permutation, lemma_permutation_len, shuffle_in_place};
use vstd::prelude::*;
use vstd::std_specs::cmp::PartialEqSpec;

verus! {

/// Picks out the items that do not compare equal to `value`.
pub open spec fn differs_from<T: PartialEq>(value: T) -> spec_fn(T) -> bool {
    |item: T| !item.eq_spec(&value)
}

/// A cursor as plain values: the items in order and the current position, if any.
pub struct CursorView<T> {
    pub items: Seq<T>,
    pub position: Option<nat>,
}

impl<T> CursorView<T> {
    /// The position is absent or points at an item.
    pub open spec fn well_formed(self) -> bool {
        match self.position {
            Some(position) => position < self.items.len(),
            None => true,
        }
    }

    /// A cursor over `items` with no current position.
    pub open spec fn start(items: Seq<T>) -> Self {
        CursorView { items, position: None }
    }

    /// The current item, if there is a position.
    pub open spec fn current(self) -> Option<T> {
        match self.position {
            Some(position) if position < self.items.len() => Some(self.items[position as int]),
            _ => None,
        }
    }

    /// Whether nothing follows the current position; vacuously so when there are no items.
    pub open spec fn is_last(self) -> bool {
        self.items.len() == 0 || self.position == Some((self.items.len() - 1) as nat)
    }

    /// The same items with no current position.
    pub open spec fn rewound(self) -> Self {
        CursorView { position: None, ..self }
    }

    /// The position set to `index` if that points at an item, cleared otherwise.
    pub open spec fn moved_to(self, index: nat) -> Self {
        CursorView {
            position: if index < self.items.len() {
                Some(index)
            } else {
                None
            },
            ..self
        }
    }

    /// One step forward: onto the first item from no position, onto the
    /// following item otherwise, and off the end from the last item.
    pub open spec fn advanced(self) -> Self {
        CursorView {
            position: if self.items.len() == 0 {
                None
            } else {
                match self.position {
                    None => Some(0),
                    Some(position) => if position + 1 < self.items.len() {
                        Some(position + 1)
                    } else {
                        None
                    },
                }
            },
            ..self
        }
    }

    /// One step back, wrapping: onto the last item from the first one and from no position.
    pub open spec fn retreated(self) -> Self {
        CursorView {
            position: if self.items.len() == 0 {
                None
            } else {
                match self.position {
                    Some(position) if position > 0 => Some((position - 1) as nat),
                    _ => Some((self.items.len() - 1) as nat),
                }
            },
            ..self
        }
    }

    /// `steps` steps forward, one after the other.
    pub open spec fn advanced_by(self, steps: nat) -> Self
        decreases steps,
    {
        if steps == 0 {
            self
        } else {
            self.advanced().advanced_by((steps - 1) as nat)
        }
    }

    /// The same cursor with the current item replaced.
    pub open spec fn with_current(self, item: T) -> Self {
        match self.position {
            Some(position) if position < self.items.len() => CursorView {
                items: self.items.update(position as int, item),
                ..self
            },
            _ => self,
        }
    }

    /// Only the items that `kept` picks out, in their order, and no position.
    pub open spec fn retained(self, kept: spec_fn(T) -> bool) -> Self {
        CursorView { items: self.items.filter(kept), position: None }
    }

    /// The same cursor seen through `f`, item by item.
    pub open spec fn map<U>(self, f: spec_fn(T) -> U) -> CursorView<U> {
        CursorView { items: self.items.map_values(f), position: self.position }
    }

    /// How many items lie at or before the position: none without a position.
    pub open spec fn passed(self) -> nat {
        match self.position {
            Some(position) => position + 1,
            None => 0,
        }
    }

    /// Stepping forward visits the items that are still ahead in order,
    /// each once: from no position, step `k` lands on item `k - 1`, so that
    /// every item is visited exactly once. The step after the last item
    /// leaves the cursor without a position, and the one after that starts
    /// over at the first item.
    pub proof fn lemma_advance_visits_each_once(self, steps: nat)
        requires
            self.items.len() > 0,
            self.well_formed(),
        ensures
            1 <= steps <= self.items.len() - self.passed() ==> self.advanced_by(steps).position
                == Some((self.passed() + steps - 1) as nat),
            steps == self.items.len() - self.passed() + 1 ==> self.advanced_by(steps).position
                is None,
            steps == self.items.len() - self.passed() + 2 ==> self.advanced_by(steps).position
                == Some(0nat),
            self.advanced_by(steps).items == self.items,
    {
        let ahead = (self.items.len() - self.passed()) as nat;
        self.lemma_advance_keeps_items(steps);
        if steps <= ahead {
            self.lemma_advance_from(self.passed(), steps);
        } else {
            self.lemma_advance_from(self.passed(), ahead);
            self.lemma_advance_split(ahead, (steps - ahead) as nat);
            let last = self.advanced_by(ahead);
            assert(last.advanced_by(1) == last.advanced()) by {
                assert(last.advanced().advanced_by(0) == last.advanced());
            }
            if steps == ahead + 2 {
                assert(last.advanced_by(2) == last.advanced().advanced()) by {
                    assert(last.advanced().advanced_by(1) == last.advanced().advanced()) by {
                        assert(last.advanced().advanced().advanced_by(0)
                            == last.advanced().advanced());
                    }
                }
            }
        }
    }

    /// Stepping never touches the items.
    proof fn lemma_advance_keeps_items(self, steps: nat)
        ensures
            self.advanced_by(steps).items == self.items,
        decreases steps,
    {
        if steps > 0 {
            self.advanced().lemma_advance_keeps_items((steps - 1) as nat);
        }
    }

    /// With `done` items passed, `more` steps pass `done + more` items while
    /// that does not run off the end.
    proof fn lemma_advance_from(self, done: nat, more: nat)
        requires
            self.items.len() > 0,
            done + more <= self.items.len(),
            done == 0 ==> self.position is None,
            done > 0 ==> self.position == Some((done - 1) as nat),
        ensures
            self.advanced_by(more).items == self.items,
            done + more > 0 ==> self.advanced_by(more).position == Some((done + more - 1) as nat),
            done + more == 0 ==> self.advanced_by(more).position is None,
        decreases more,
    {
        if more > 0 {
            self.advanced().lemma_advance_from(done + 1, (more - 1) as nat);
        }
    }

    /// Stepping `first + second` times is stepping `first` times, then `second` times.
    proof fn lemma_advance_split(self, first: nat, second: nat)
        ensures
            self.advanced_by(first + second) == self.advanced_by(first).advanced_by(second),
        decreases first,
    {
        if first > 0 {
            self.advanced().lemma_advance_split((first - 1) as nat, second);
        }
    }

    /// A step back from no position lands on the last item, and so does a step
    /// back from the first item.
    pub proof fn lemma_retreat_wraps(self)
        requires
            self.items.len() > 0,
            self.position is None || self.position == Some(0nat),
        ensures
            self.retreated().position == Some((self.items.len() - 1) as nat),
            self.retreated().items == self.items,
    {
    }

    /// Every way of moving keeps a valid position valid.
    pub proof fn lemma_moves_keep_well_formed(self, index: nat)
        requires
            self.well_formed(),
        ensures
            self.advanced().well_formed(),
            self.retreated().well_formed(),
            self.rewound().well_formed(),
            self.moved_to(index).well_formed(),
    {
    }
}

/// A list of items with an optional current position.
#[derive(Debug, Hash)]
pub struct IndexedVec<T> {
    index: Option<usize>,
    store: Vec<T>,
}

impl<T> View for IndexedVec<T> {
    type V = CursorView<T>;

    closed spec fn view(&self) -> CursorView<T> {
        CursorView {
            items: self.store@,
            position: match self.index {
                Some(index) => Some(index as nat),
                None => None,
            },
        }
    }
}

impl<T> IndexedVec<T> {
    #[verifier::type_invariant]
    closed spec fn position_is_valid(self) -> bool {
        self@.well_formed()
    }

    /// A cursor over `items`, in their order, with no current position.
    pub fn from_vec(items: Vec<T>) -> (cursor: Self)
        ensures
            cursor@ == CursorView::start(items@),
    {
        IndexedVec { index: None, store: items }
    }

    /// A cursor over copies of `elements`, in their order, with no current position.
    pub fn new(elements: &[T]) -> (cursor: Self) where T: Clone
        ensures
            cursor@.position is None,
            cursor@.items.len() == elements@.len(),
            forall|i: int|
                0 <= i < elements@.len() ==> cloned(elements@[i], #[trigger] cursor@.items[i]),
    {
        let mut store: Vec<T> = Vec::new();
        let mut i: usize = 0;
        while i < elements.len()
            invariant
                i <= elements@.len(),
                store@.len() == i,
                forall|j: int| 0 <= j < i ==> cloned(elements@[j], #[trigger] store@[j]),
            decreases elements@.len() - i,
        {
            store.push(elements[i].clone());
            i += 1;
        }
        IndexedVec { index: None, store }
    }

    /// The items, in order.
    pub fn store(&self) -> (store: &Vec<T>)
        ensures
            store@ == self@.items,
    {
        &self.store
    }

    /// Forgets the current position.
    pub fn reset(&mut self)
        ensures
            final(self)@ == old(self)@.rewound(),
    {
        self.index = None
    }

    /// Whether nothing follows the current position; true of an empty cursor.
    pub fn last(&self) -> (last: bool)
        ensures
            last == self@.is_last(),
    {
        if self.is_empty() {
            return true;
        }
        if let Some(index) = self.index {
            index == self.store.len() - 1
        } else {
            false
        }
    }

    /// The current position. It always points at an item.
    pub fn index(&self) -> (index: Option<usize>)
        ensures
            self@.well_formed(),
            match index {
                Some(index) => self@.position == Some(index as nat),
                None => self@.position is None,
            },
    {
        proof {
            use_type_invariant(self);
        }
        self.index
    }

    /// Moves to `index` where that points at an item, and to no position otherwise.
    /// Returns the item moved to.
    pub fn set_index(&mut self, index: usize) -> (item: Option<&mut T>)
        ensures
            match item {
                Some(item) => {
                    &&& index < old(self)@.items.len()
                    &&& *item == old(self)@.items[index as int]
                    &&& final(self)@ == old(self)@.moved_to(index as nat).with_current(*final(item))
                },
                None => {
                    &&& index >= old(self)@.items.len()
                    &&& final(self)@ == old(self)@.moved_to(index as nat)
                },
            },
    {
        if index < self.store.len() {
            self.index = Some(index);
            Some(&mut self.store[index])
        } else {
            self.index = None;
            None
        }
    }

    /// The current item.
    pub fn get(&self) -> (item: Option<&T>)
        ensures
            match item {
                Some(item) => self@.current() == Some(*item),
                None => self@.current() is None,
            },
    {
        if let Some(index) = self.index {
            proof {
                use_type_invariant(self);
            }
            Some(&self.store[index])
        } else {
            None
        }
    }

    /// The current item, to be changed in place.
    pub fn get_mut(&mut self) -> (item: Option<&mut T>)
        ensures
            match item {
                Some(item) => {
                    &&& old(self)@.current() == Some(*item)
                    &&& final(self)@ == old(self)@.with_current(*final(item))
                },
                None => {
                    &&& old(self)@.current() is None
                    &&& final(self)@ == old(self)@
                },
            },
    {
        if let Some(index) = self.index {
            proof {
                use_type_invariant(&*self);
            }
            Some(&mut self.store[index])
        } else {
            None
        }
    }

    /// Steps forward and returns the item stepped onto: the first one when
    /// there was no position, nothing when the step runs off the end, which
    /// also clears the position.
    pub fn next_mut(&mut self) -> (item: Option<&mut T>)
        ensures
            match item {
                Some(item) => {
                    &&& old(self)@.advanced().current() == Some(*item)
                    &&& final(self)@ == old(self)@.advanced().with_current(*final(item))
                },
                None => {
                    &&& old(self)@.advanced().position is None
                    &&& final(self)@ == old(self)@.advanced()
                },
            },
    {
        proof {
            use_type_invariant(&*self);
        }
        if self.store.len() == 0 {
            self.index = None;
            return None;
        }
        let index = match self.index {
            None => {
                self.index = Some(0);
                return Some(&mut self.store[0]);
            },
            Some(index) => index,
        };
        if index < self.store.len() - 1 {
            self.index = Some(index + 1);
            Some(&mut self.store[index + 1])
        } else {
            self.index = None;
            None
        }
    }

    /// Steps forward; another name for [`IndexedVec::next_mut`].
    pub fn next_item(&mut self) -> (item: Option<&mut T>)
        ensures
            match item {
                Some(item) => {
                    &&& old(self)@.advanced().current() == Some(*item)
                    &&& final(self)@ == old(self)@.advanced().with_current(*final(item))
                },
                None => {
                    &&& old(self)@.advanced().position is None
                    &&& final(self)@ == old(self)@.advanced()
                },
            },
    {
        self.next_mut()
    }

    /// Steps back; another name for [`IndexedVec::previous_mut`].
    pub fn previous_item(&mut self) -> (item: Option<&mut T>)
        ensures
            match item {
                Some(item) => {
                    &&& old(self)@.retreated().current() == Some(*item)
                    &&& final(self)@ == old(self)@.retreated().with_current(*final(item))
                },
                None => {
                    &&& old(self)@.items.len() == 0
                    &&& final(self)@ == old(self)@.retreated()
                },
            },
    {
        self.previous_mut()
    }

    /// Steps back and returns the item stepped onto, wrapping to the last
    /// item from the first one and from no position. Nothing happens to an
    /// empty cursor.
    pub fn previous_mut(&mut self) -> (item: Option<&mut T>)
        ensures
            match item {
                Some(item) => {
                    &&& old(self)@.retreated().current() == Some(*item)
                    &&& final(self)@ == old(self)@.retreated().with_current(*final(item))
                },
                None => {
                    &&& old(self)@.items.len() == 0
                    &&& final(self)@ == old(self)@.retreated()
                },
            },
    {
        proof {
            use_type_invariant(&*self);
        }
        if self.store.len() == 0 {
            self.index = None;
            return None;
        }
        let future_index = if let Some(index) = self.index {
            if index == 0 {
                self.store.len() - 1
            } else {
                index - 1
            }
        } else {
            self.store.len() - 1
        };
        self.index = Some(future_index);
        Some(&mut self.store[future_index])
    }

    /// Empties the cursor and hands out what it held.
    fn take_store(&mut self) -> (store: Vec<T>)
        ensures
            store@ == old(self)@.items,
            final(self)@ == CursorView::start(Seq::<T>::empty()),
    {
        self.index = None;
        let mut store: Vec<T> = Vec::new();
        core::mem::swap(&mut self.store, &mut store);
        store
    }

    /// Replaces every item by what `f` makes of it; the position stays.
    pub fn apply<F: Fn(T) -> T>(&mut self, f: F)
        requires
            forall|i: int|
                0 <= i < old(self)@.items.len() ==> call_requires(
                    f,
                    (#[trigger] old(self)@.items[i],),
                ),
        ensures
            final(self)@.position == old(self)@.position,
            final(self)@.items.len() == old(self)@.items.len(),
            forall|i: int|
                0 <= i < old(self)@.items.len() ==> call_ensures(
                    f,
                    (old(self)@.items[i],),
                    #[trigger] final(self)@.items[i],
                ),
    {
        proof {
            use_type_invariant(&*self);
        }
        let index = self.index;
        let mut store = self.take_store();
        let ghost before = store@;
        let mut reversed: Vec<T> = Vec::new();
        while store.len() > 0
            invariant
                forall|i: int| 0 <= i < before.len() ==> call_requires(f, (#[trigger] before[i],)),
                store@ == before.subrange(0, before.len() - reversed@.len()),
                reversed@.len() <= before.len(),
                forall|t: int|
                    0 <= t < reversed@.len() ==> call_ensures(
                        f,
                        (before[before.len() - 1 - t],),
                        #[trigger] reversed@[t],
                    ),
            decreases store.len(),
        {
            let item = store.pop().unwrap();
            assert(item == before[before.len() - reversed@.len() - 1]);
            reversed.push(f(item));
            assert(store@ =~= before.subrange(0, before.len() - reversed@.len()));
        }
        while reversed.len() > 0
            invariant
                store@.len() + reversed@.len() == before.len(),
                forall|t: int|
                    0 <= t < reversed@.len() ==> call_ensures(
                        f,
                        (before[before.len() - 1 - t],),
                        #[trigger] reversed@[t],
                    ),
                forall|i: int|
                    0 <= i < store@.len() ==> call_ensures(f, (before[i],), #[trigger] store@[i]),
            decreases reversed.len(),
        {
            let item = reversed.pop().unwrap();
            store.push(item);
        }
        self.store = store;
        self.index = index;
    }

    /// Removes every item equal to `value` and forgets the position.
    pub fn retain(&mut self, value: &T) where T: PartialEq
        ensures
            final(self)@.position is None,
            T::obeys_eq_spec() ==> final(self)@ == old(self)@.retained(differs_from(*value)),
    {
        let mut store = self.take_store();
        let ghost before = store@;
        let ghost keep = differs_from(*value);
        let mut reversed: Vec<T> = Vec::new();
        while store.len() > 0
            invariant
                store@ == before.subrange(0, before.len() - reversed@.len()),
                reversed@.len() <= before.len(),
                forall|t: int|
                    0 <= t < reversed@.len() ==> #[trigger] reversed@[t] == before[before.len() - 1
                        - t],
            decreases store.len(),
        {
            let item = store.pop().unwrap();
            reversed.push(item);
            assert(store@ =~= before.subrange(0, before.len() - reversed@.len()));
        }
        assert(store@ =~= Seq::<T>::empty());
        proof {
            reveal(Seq::filter);
        }
        while reversed.len() > 0
            invariant
                reversed@.len() <= before.len(),
                forall|t: int|
                    0 <= t < reversed@.len() ==> #[trigger] reversed@[t] == before[before.len() - 1
                        - t],
                keep == differs_from(*value),
                T::obeys_eq_spec() ==> store@ == before.subrange(
                    0,
                    before.len() - reversed@.len(),
                ).filter(keep),
            decreases reversed.len(),
        {
            let ghost done = before.subrange(0, before.len() - reversed@.len());
            let item = reversed.pop().unwrap();
            proof {
                assert(done.push(item) =~= before.subrange(0, before.len() - reversed@.len()));
                done.lemma_filter_push(item, keep);
            }
            if item != *value {
                store.push(item);
            }
        }
        assert(before.subrange(0, before.len() as int) =~= before);
        self.store = store;
    }

    /// Puts the items in a random order. The position stays where it is.
    pub fn shuffle(&mut self)
        ensures
            is_permutation(final(self)@.items, old(self)@.items),
            final(self)@.position == old(self)@.position,
    {
        proof {
            use_type_invariant(&*self);
        }
        let index = self.index;
        let mut store = self.take_store();
        let ghost before = store@;
        shuffle_in_place(&mut store);
        proof {
            lemma_permutation_len(store@, before);
        }
        self.store = store;
        self.index = index;
    }

    /// A copy of the items in a random order. The cursor itself is not touched.
    pub fn shuffled(&mut self) -> (copy: Vec<T>) where T: Clone
        ensures
            final(self)@ == old(self)@,
            exists|copied: Seq<T>|
                {
                    &&& copied.len() == old(self)@.items.len()
                    &&& forall|i: int|
                        0 <= i < copied.len() ==> cloned(old(self)@.items[i], #[trigger] copied[i])
                    &&& is_permutation(copy@, copied)
                },
    {
        let mut store = self.store.clone();
        let ghost copied = store@;
        shuffle_in_place(&mut store);
        assert(is_permutation(store@, copied));
        store
    }

    pub fn len(&self) -> (len: usize)
        ensures
            len == self@.items.len(),
            self@.well_formed(),
    {
        proof {
            use_type_invariant(self);
        }
        self.store.len()
    }

    pub fn is_empty(&self) -> (empty: bool)
        ensures
            empty == (self@.items.len() == 0),
            self@.well_formed(),
    {
        proof {
            use_type_invariant(self);
        }
        self.store.len() == 0
    }
}

impl<T> Default for IndexedVec<T> {
    fn default() -> (cursor: Self)
        ensures
            cursor@ == CursorView::start(Seq::<T>::empty()),
    {
        IndexedVec { index: None, store: Vec::new() }
    }
}

impl<T: Clone> Clone for IndexedVec<T> {
    fn clone(&self) -> (copy: Self)
        ensures
            copy@.position == self@.position,
            copy@.items.len() == self@.items.len(),
            forall|i: int|
                0 <= i < self@.items.len() ==> cloned(self@.items[i], #[trigger] copy@.items[i]),
    {
        proof {
            use_type_invariant(self);
        }
        IndexedVec { index: self.index, store: self.store.clone() }
    }
}

impl<T: PartialEq> PartialEq for IndexedVec<T> {
    fn eq(&self, other: &Self) -> (equal: bool) {
        let same_position = match (self.index, other.index) {
            (Some(mine), Some(theirs)) => mine == theirs,
            (None, None) => true,
            _ => false,
        };
        if !same_position || self.store.len() != other.store.len() {
            return false;
        }
        let mut i: usize = 0;
        while i < self.store.len()
            invariant
                i <= self.store@.len(),
                self.store@.len() == other.store@.len(),
                T::obeys_eq_spec() ==> forall|j: int|
                    0 <= j < i ==> (#[trigger] self.store@[j]).eq_spec(&other.store@[j]),
            decreases self.store@.len() - i,
        {
            if self.store[i] != other.store[i] {
                return false;
            }
            i += 1;
        }
        true
    }
}

impl<T: Eq> Eq for IndexedVec<T> {

}

impl<T: PartialEq> vstd::std_specs::cmp::PartialEqSpecImpl for IndexedVec<T> {
    open spec fn obeys_eq_spec() -> bool {
        T::obeys_eq_spec()
    }

    /// The same position, and item for item the same.
    open spec fn eq_spec(&self, other: &Self) -> bool {
        &&& self@.position == other@.position
        &&& self@.items.len() == other@.items.len()
        &&& forall|i: int|
            0 <= i < self@.items.len() ==> (#[trigger] self@.items[i]).eq_spec(&other@.items[i])
    }
}

impl<T> From<Vec<T>> for IndexedVec<T> {
    fn from(items: Vec<T>) -> (cursor: Self)
        ensures
            cursor@ == CursorView::start(items@),
    {
        IndexedVec { index: None, store: items }
    }
}

impl<T> vstd::std_specs::convert::FromSpecImpl<Vec<T>> for IndexedVec<T> {
    open spec fn obeys_from_spec() -> bool {
        true
    }

    closed spec fn from_spec(items: Vec<T>) -> Self {
        IndexedVec { index: None, store: items }
    }
}

} // verus!
