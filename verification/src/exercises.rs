//! A choice of exercises, given as catalogue items or just by name.

use crate::duration::Duration;
use crate::item::{item_views, Item, ItemView};
use crate::tag::Tag;
use crate::text::joined;
use crate::unique::{deduplicated, lemma_deduplicated_push};
use crate::workout::{views, Workout, WorkoutView};
use vstd::prelude::*;
use vstd::string::StringExecFns;

verus! {

/// The icon of an exercise that is known by name only.
pub const DEFAULT_ICON: char = '🎯';

/// What a list of names stands for: one item per name, all with the same icon.
pub open spec fn named_items(names: Seq<Seq<char>>, icon: Option<char>) -> Seq<ItemView> {
    names.map_values(
        |name: Seq<char>|
            ItemView {
                icon: Some(
                    match icon {
                        Some(icon) => icon,
                        None => DEFAULT_ICON,
                    },
                ),
                ..ItemView::named(name)
            },
    )
}

/// What each of the texts reads.
pub open spec fn texts(names: Seq<String>) -> Seq<Seq<char>> {
    names.map_values(|name: String| name@)
}

/// What each of the borrowed texts reads.
pub open spec fn strs(names: Seq<&str>) -> Seq<Seq<char>> {
    names.map_values(|name: &str| name@)
}

/// Whether the item carries at least one of `tags`.
pub open spec fn carries_any(item: ItemView, tags: Seq<Tag>) -> bool {
    exists|i: int| 0 <= i < tags.len() && item.tags.contains(#[trigger] tags[i])
}

/// The items of the catalogue that carry at least one of `tags`, in
/// catalogue order, each once.
pub open spec fn tagged_items(catalog: Seq<ItemView>, tags: Seq<Tag>) -> Seq<ItemView> {
    deduplicated(catalog.filter(|item: ItemView| carries_any(item, tags)))
}

/// One workout of `duration` seconds on each item.
pub open spec fn workouts_on(items: Seq<ItemView>, duration: nat) -> Seq<WorkoutView> {
    items.map_values(|item: ItemView| item.workout(duration, None))
}

/// The names of the items, in order.
pub open spec fn item_names(items: Seq<ItemView>) -> Seq<Seq<char>> {
    items.map_values(|item: ItemView| item.name)
}

pub enum Exercises {
    /// Items taken from a catalogue.
    Items(Vec<Item>),
    /// Bare names, with the icon they share.
    Names(Vec<String>, Option<char>),
}

impl View for Exercises {
    type V = Seq<ItemView>;

    /// The items the choice stands for.
    open spec fn view(&self) -> Seq<ItemView> {
        match self {
            Exercises::Items(items) => item_views(items@),
            Exercises::Names(names, icon) => named_items(texts(names@), *icon),
        }
    }
}

impl Exercises {
    /// Whether `item` carries at least one of `tags`.
    fn carries(item: &Item, tags: &[Tag]) -> (found: bool)
        ensures
            found == carries_any(item@, tags@),
    {
        let mut i: usize = 0;
        while i < tags.len()
            invariant
                i <= tags@.len(),
                forall|j: int| 0 <= j < i ==> !item@.tags.contains(#[trigger] tags@[j]),
            decreases tags@.len() - i,
        {
            if item.tags().contains(&tags[i]) {
                return true;
            }
            i += 1;
        }
        false
    }

    /// The items of `catalog` that carry at least one of `tags`, in catalogue
    /// order and each once.
    pub fn from_tags(catalog: &[Item], tags: &[Tag]) -> (exercises: Self)
        ensures
            exercises matches Exercises::Items(_),
            exercises@ == tagged_items(item_views(catalog@), tags@),
    {
        let mut chosen: Vec<Item> = Vec::new();
        let ghost wanted = |item: ItemView| carries_any(item, tags@);
        let mut i: usize = 0;
        proof {
            reveal(Seq::filter);
            assert(item_views(catalog@).subrange(0, 0).filter(wanted) =~= Seq::<ItemView>::empty());
        }
        while i < catalog.len()
            invariant
                i <= catalog@.len(),
                wanted == (|item: ItemView| carries_any(item, tags@)),
                item_views(chosen@) == deduplicated(
                    item_views(catalog@).subrange(0, i as int).filter(wanted),
                ),
            decreases catalog@.len() - i,
        {
            let ghost seen = item_views(catalog@).subrange(0, i as int);
            proof {
                assert(seen.push(catalog@[i as int]@) =~= item_views(catalog@).subrange(0, i + 1));
                seen.lemma_filter_push(catalog@[i as int]@, wanted);
                lemma_deduplicated_push(seen.filter(wanted), catalog@[i as int]@);
            }
            if Self::carries(&catalog[i], tags) && !catalog[i].is_among(&chosen) {
                let ghost before = chosen@;
                chosen.push(catalog[i].clone());
                assert(item_views(chosen@) =~= item_views(before).push(catalog@[i as int]@));
            }
            i += 1;
        }
        assert(item_views(catalog@).subrange(0, i as int) =~= item_views(catalog@));
        Exercises::Items(chosen)
    }

    /// Exercises known by name only, all shown with `icon`.
    pub fn from_strings(names: Vec<&str>, icon: Option<char>) -> (exercises: Self)
        ensures
            exercises matches Exercises::Names(_, _),
            exercises@ == named_items(strs(names@), icon),
    {
        let mut owned: Vec<String> = Vec::new();
        let mut i: usize = 0;
        while i < names.len()
            invariant
                i <= names@.len(),
                texts(owned@) == strs(names@).subrange(0, i as int),
            decreases names@.len() - i,
        {
            let ghost before = owned@;
            owned.push(names[i].to_owned());
            assert(texts(owned@) =~= texts(before).push(names@[i as int]@));
            assert(texts(owned@) =~= strs(names@).subrange(0, i + 1));
            i += 1;
        }
        assert(strs(names@).subrange(0, i as int) =~= strs(names@));
        Exercises::Names(owned, icon)
    }

    /// Exercises known by name only, all shown with `icon`.
    pub fn from(names: Vec<&str>, icon: Option<char>) -> (exercises: Self)
        ensures
            exercises matches Exercises::Names(_, _),
            exercises@ == named_items(strs(names@), icon),
    {
        Self::from_strings(names, icon)
    }

    pub fn from_items(items: Vec<Item>) -> (exercises: Self)
        ensures
            exercises == Exercises::Items(items),
    {
        Exercises::Items(items)
    }

    pub fn len(&self) -> (len: usize)
        ensures
            len == self@.len(),
    {
        match self {
            Exercises::Items(items) => items.len(),
            Exercises::Names(names, _) => names.len(),
        }
    }

    pub fn is_empty(&self) -> (empty: bool)
        ensures
            empty == (self@.len() == 0),
    {
        self.len() == 0
    }

    /// One workout of `duration` on each exercise, in order.
    pub fn workouts(self, duration: Duration) -> (workouts: Vec<Workout>)
        ensures
            views(workouts@) == workouts_on(self@, duration@),
    {
        let mut workouts: Vec<Workout> = Vec::new();
        match self {
            Exercises::Items(items) => {
                let mut i: usize = 0;
                while i < items.len()
                    invariant
                        i <= items@.len(),
                        views(workouts@) == workouts_on(
                            item_views(items@).subrange(0, i as int),
                            duration@,
                        ),
                    decreases items@.len() - i,
                {
                    let ghost before = workouts@;
                    workouts.push(items[i].workout(duration));
                    assert(views(workouts@) =~= views(before).push(
                        items@[i as int]@.workout(duration@, None),
                    ));
                    assert(views(workouts@) =~= workouts_on(
                        item_views(items@).subrange(0, i + 1),
                        duration@,
                    ));
                    i += 1;
                }
                assert(item_views(items@).subrange(0, i as int) =~= item_views(items@));
            },
            Exercises::Names(names, icon) => {
                let shown = match icon {
                    Some(icon) => icon,
                    None => DEFAULT_ICON,
                };
                let mut i: usize = 0;
                while i < names.len()
                    invariant
                        i <= names@.len(),
                        shown == match icon {
                            Some(icon) => icon,
                            None => DEFAULT_ICON,
                        },
                        views(workouts@) == workouts_on(
                            named_items(texts(names@), icon).subrange(0, i as int),
                            duration@,
                        ),
                    decreases names@.len() - i,
                {
                    let ghost before = workouts@;
                    let item = Item::new(names[i].as_str()).with_icon(shown);
                    workouts.push(item.workout(duration));
                    assert(views(workouts@) =~= views(before).push(
                        item@.workout(duration@, None),
                    ));
                    assert(views(workouts@) =~= workouts_on(
                        named_items(texts(names@), icon).subrange(0, i + 1),
                        duration@,
                    ));
                    i += 1;
                }
                assert(named_items(texts(names@), icon).subrange(0, i as int) =~= named_items(
                    texts(names@),
                    icon,
                ));
            },
        }
        workouts
    }

    /// The names of the exercises, separated by `", "`.
    pub fn to_string(&self) -> (text: String)
        ensures
            text@ == joined(item_names(self@), ", "@),
    {
        let mut text = String::new();
        let count = self.len();
        let mut i: usize = 0;
        while i < count
            invariant
                i <= count,
                count == self@.len(),
                text@ == joined(item_names(self@).subrange(0, i as int), ", "@),
            decreases count - i,
        {
            let ghost before = item_names(self@).subrange(0, i as int);
            let ghost after = item_names(self@).subrange(0, i + 1);
            assert(after.drop_last() =~= before);
            if i > 0 {
                text.append(", ");
            } else {
                assert(text@ =~= Seq::<char>::empty());
            }
            match self {
                Exercises::Items(items) => text.append(items[i].name()),
                Exercises::Names(names, _) => text.append(names[i].as_str()),
            }
            assert(text@ =~= joined(after, ", "@));
            i += 1;
        }
        assert(item_names(self@).subrange(0, i as int) =~= item_names(self@));
        text
    }
}

} // verus!
