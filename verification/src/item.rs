//! The description of an exercise: its name and what is known about it.

use crate::duration::Duration;
use crate::slugs::{slug_of, slugify};
use crate::stopwatch::{Stopwatch, StopwatchView};
use crate::tag::{Difficulty, Tag, Tags};
use crate::text::{clone_text, joined, same_text, text_view};
use crate::unique::{deduplicated, lemma_deduplicated_concat, lemma_deduplicated_push};
use crate::workout::{Workout, WorkoutView};
use vstd::prelude::*;
use vstd::string::StringExecFns;

verus! {

/// Shown in front of a name that has no icon: the left-to-right mark.
pub const NO_ICON: char = '\u{200e}';

/// What an item says, as plain values.
pub struct ItemView {
    pub name: Seq<char>,
    pub tags: Seq<Tag>,
    pub description: Option<Seq<char>>,
    pub difficulty: Option<Difficulty>,
    pub icon: Option<char>,
}

impl ItemView {
    /// An item that has a name and nothing else.
    pub open spec fn named(name: Seq<char>) -> Self {
        ItemView { name, tags: Seq::empty(), description: None, difficulty: None, icon: None }
    }

    /// The item that stands for a pause between two exercises.
    pub open spec fn rest() -> Self {
        ItemView {
            name: "Rest"@,
            tags: seq![Tag::Rest],
            description: None,
            difficulty: None,
            icon: Some('💤'),
        }
    }

    /// An item is a rest when it carries the rest tag.
    pub open spec fn is_rest(self) -> bool {
        self.tags.contains(Tag::Rest)
    }

    /// The display names of the tags, in order.
    pub open spec fn tag_names(self) -> Seq<Seq<char>> {
        self.tags.map_values(|tag: Tag| tag.name_text())
    }

    /// The tag names separated by `" / "`.
    pub open spec fn joined_tags(self) -> Seq<char> {
        joined(self.tag_names(), " / "@)
    }

    /// The icon, or the invisible mark that stands in for it, followed by the name.
    pub open spec fn label(self) -> Seq<char> {
        seq![
            match self.icon {
                Some(icon) => icon,
                None => NO_ICON,
            },
        ] + self.name
    }

    /// A workout on this item that has not started.
    pub open spec fn workout(self, duration: nat, difficulty: Option<Difficulty>) -> WorkoutView {
        WorkoutView { item: self, stopwatch: StopwatchView::fresh(duration), difficulty }
    }
}

/// The items of a list, each as plain values.
pub open spec fn item_views(items: Seq<Item>) -> Seq<ItemView> {
    items.map_values(|item: Item| item@)
}

/// The tags of the items, item after item.
pub open spec fn tags_of(items: Seq<ItemView>) -> Seq<Tag>
    decreases items.len(),
{
    if items.len() == 0 {
        Seq::empty()
    } else {
        tags_of(items.drop_last()) + items.last().tags
    }
}

/// The distinct items of a catalogue, in catalogue order.
pub fn all_items(catalog: &[Item]) -> (items: Vec<Item>)
    ensures
        item_views(items@) == deduplicated(item_views(catalog@)),
{
    let mut items: Vec<Item> = Vec::new();
    let mut i: usize = 0;
    assert(item_views(catalog@).subrange(0, 0) =~= Seq::<ItemView>::empty());
    while i < catalog.len()
        invariant
            i <= catalog@.len(),
            item_views(items@) == deduplicated(item_views(catalog@).subrange(0, i as int)),
        decreases catalog@.len() - i,
    {
        proof {
            let seen = item_views(catalog@).subrange(0, i as int);
            assert(seen.push(catalog@[i as int]@) =~= item_views(catalog@).subrange(0, i + 1));
            lemma_deduplicated_push(seen, catalog@[i as int]@);
        }
        if !catalog[i].is_among(&items) {
            let ghost before = items@;
            items.push(catalog[i].clone());
            assert(item_views(items@) =~= item_views(before).push(catalog@[i as int]@));
        }
        i += 1;
    }
    assert(item_views(catalog@).subrange(0, i as int) =~= item_views(catalog@));
    items
}

/// The distinct tags that the items of a catalogue carry, in the order
/// they first appear.
pub fn all_tags(catalog: &[Item]) -> (tags: Vec<Tag>)
    ensures
        tags@ == deduplicated(tags_of(item_views(catalog@))),
{
    let mut tags: Vec<Tag> = Vec::new();
    let mut i: usize = 0;
    assert(item_views(catalog@).subrange(0, 0) =~= Seq::<ItemView>::empty());
    while i < catalog.len()
        invariant
            i <= catalog@.len(),
            tags@ == deduplicated(tags_of(item_views(catalog@).subrange(0, i as int))),
        decreases catalog@.len() - i,
    {
        proof {
            let longer = item_views(catalog@).subrange(0, i + 1);
            assert(longer.drop_last() =~= item_views(catalog@).subrange(0, i as int));
            assert(longer.last() == catalog@[i as int]@);
            lemma_deduplicated_concat(
                tags_of(item_views(catalog@).subrange(0, i as int)),
                catalog@[i as int]@.tags,
            );
        }
        catalog[i].tags().add_new_to(&mut tags);
        i += 1;
    }
    assert(item_views(catalog@).subrange(0, i as int) =~= item_views(catalog@));
    tags
}

/// An exercise as the catalogue knows it. Items are values: two items that say
/// the same are the same item.
#[derive(Debug, Hash)]
pub struct Item {
    name: String,
    tags: Tags,
    description: Option<String>,
    difficulty: Option<Difficulty>,
    icon: Option<char>,
}

impl View for Item {
    type V = ItemView;

    closed spec fn view(&self) -> ItemView {
        ItemView {
            name: self.name@,
            tags: self.tags@,
            description: text_view(self.description),
            difficulty: self.difficulty,
            icon: self.icon,
        }
    }
}

impl Item {
    /// An item with the given name, no tags, no description, no difficulty and no icon.
    pub fn new(name: &str) -> (item: Self)
        ensures
            item@ == ItemView::named(name@),
    {
        Item {
            name: name.to_owned(),
            tags: Tags::new(Vec::new()),
            description: None,
            difficulty: None,
            icon: None,
        }
    }

    /// The same item with `tags` in place of its tags.
    pub fn with_tags(self, tags: Tags) -> (item: Self)
        ensures
            item@ == (ItemView { tags: tags@, ..self@ }),
    {
        Item { tags, ..self }
    }

    /// The same item with `description` in place of its description.
    pub fn with_description(self, description: &str) -> (item: Self)
        ensures
            item@ == (ItemView { description: Some(description@), ..self@ }),
    {
        Item { description: Some(description.to_owned()), ..self }
    }

    /// The same item with `difficulty` in place of its difficulty.
    pub fn with_difficulty(self, difficulty: Difficulty) -> (item: Self)
        ensures
            item@ == (ItemView { difficulty: Some(difficulty), ..self@ }),
    {
        Item { difficulty: Some(difficulty), ..self }
    }

    /// The same item with `icon` in place of its icon.
    pub fn with_icon(self, icon: char) -> (item: Self)
        ensures
            item@ == (ItemView { icon: Some(icon), ..self@ }),
    {
        Item { icon: Some(icon), ..self }
    }

    /// The pause between two exercises: named "Rest", tagged as rest.
    pub fn rest() -> (item: Self)
        ensures
            item@ == ItemView::rest(),
    {
        let mut tags: Vec<Tag> = Vec::new();
        tags.push(Tag::Rest);
        assert(tags@ =~= seq![Tag::Rest]);
        Item {
            name: "Rest".to_owned(),
            tags: Tags::new(tags),
            description: None,
            difficulty: None,
            icon: Some('💤'),
        }
    }

    pub fn name(&self) -> (name: &str)
        ensures
            name@ == self@.name,
    {
        self.name.as_str()
    }

    pub fn icon(&self) -> (icon: Option<char>)
        ensures
            icon == self@.icon,
    {
        self.icon
    }

    /// The slug of the item's name.
    pub fn slug(&self) -> (slug: String)
        ensures
            slug@ == slug_of(self@.name),
    {
        slugify(self.name.as_str())
    }

    pub fn tags(&self) -> (tags: &Tags)
        ensures
            tags@ == self@.tags,
    {
        &self.tags
    }

    pub fn description(&self) -> (description: &Option<String>)
        ensures
            text_view(*description) == self@.description,
    {
        &self.description
    }

    /// The difficulty the catalogue gives the item itself.
    pub fn own_difficulty(&self) -> (difficulty: Option<Difficulty>)
        ensures
            difficulty == self@.difficulty,
    {
        self.difficulty
    }

    /// Whether `items` holds an item that says what this one says.
    pub fn is_among(&self, items: &Vec<Item>) -> (found: bool)
        ensures
            found == item_views(items@).contains(self@),
    {
        let mut i: usize = 0;
        while i < items.len()
            invariant
                i <= items@.len(),
                forall|j: int| 0 <= j < i ==> item_views(items@)[j] != self@,
            decreases items@.len() - i,
        {
            if items[i] == *self {
                assert(item_views(items@)[i as int] == self@);
                return true;
            }
            i += 1;
        }
        false
    }

    pub fn is_rest(&self) -> (rest: bool)
        ensures
            rest == self@.is_rest(),
    {
        self.tags.contains(&Tag::Rest)
    }

    /// The tag names separated by `" / "`, or nothing where that would be empty.
    pub fn joined_tags(&self) -> (text: Option<String>)
        ensures
            match text {
                Some(text) => text@ == self@.joined_tags() && text@.len() > 0,
                None => self@.joined_tags().len() == 0,
            },
    {
        let mut text = String::new();
        let mut i: usize = 0;
        while i < self.tags.len()
            invariant
                i <= self.tags@.len(),
                text@ == joined(self@.tag_names().subrange(0, i as int), " / "@),
            decreases self.tags@.len() - i,
        {
            let ghost before = self@.tag_names().subrange(0, i as int);
            let ghost after = self@.tag_names().subrange(0, i + 1);
            assert(after.drop_last() =~= before);
            assert(after.last() == self.tags@[i as int].name_text());
            if i > 0 {
                text.append(" / ");
            } else {
                assert(text@ =~= Seq::<char>::empty());
            }
            text.append(self.tags.0[i].name());
            assert(text@ =~= joined(after, " / "@)) by {
                if i > 0 {
                } else {
                    assert(before.len() == 0);
                    assert(after.len() == 1);
                }
            }
            i += 1;
        }
        assert(self@.tag_names().subrange(0, i as int) =~= self@.tag_names());
        if text.as_str().is_empty() {
            None
        } else {
            Some(text)
        }
    }

    /// A workout on this item that lasts `duration`.
    pub fn workout(&self, duration: Duration) -> (workout: Workout)
        ensures
            workout@ == self@.workout(duration@, None),
    {
        Workout::new(self.clone(), Stopwatch::new(duration), None)
    }

    /// A workout on this item that lasts `duration`, rated `difficulty`.
    pub fn difficulty(&self, duration: Duration, difficulty: Difficulty) -> (workout: Workout)
        ensures
            workout@ == self@.workout(duration@, Some(difficulty)),
    {
        Workout::new(self.clone(), Stopwatch::new(duration), Some(difficulty))
    }

    pub fn easy(&self, duration: Duration) -> (workout: Workout)
        ensures
            workout@ == self@.workout(duration@, Some(Difficulty::Easy)),
    {
        self.difficulty(duration, Difficulty::Easy)
    }

    pub fn medium(&self, duration: Duration) -> (workout: Workout)
        ensures
            workout@ == self@.workout(duration@, Some(Difficulty::Medium)),
    {
        self.difficulty(duration, Difficulty::Medium)
    }

    pub fn hard(&self, duration: Duration) -> (workout: Workout)
        ensures
            workout@ == self@.workout(duration@, Some(Difficulty::Hard)),
    {
        self.difficulty(duration, Difficulty::Hard)
    }

    pub fn elite(&self, duration: Duration) -> (workout: Workout)
        ensures
            workout@ == self@.workout(duration@, Some(Difficulty::Elite)),
    {
        self.difficulty(duration, Difficulty::Elite)
    }

    /// The icon, or the invisible mark that stands in for it, followed by the name.
    pub fn to_string(&self) -> (text: String)
        ensures
            text@ == self@.label(),
    {
        let mut text = String::new();
        match self.icon {
            Some(icon) => text.push(icon),
            None => text.push(NO_ICON),
        }
        text.append(self.name.as_str());
        assert(text@ =~= self@.label());
        text
    }
}

impl Clone for Item {
    fn clone(&self) -> (copy: Self)
        ensures
            copy@ == self@,
    {
        Item {
            name: self.name.clone(),
            tags: self.tags.clone(),
            description: clone_text(&self.description),
            difficulty: self.difficulty,
            icon: self.icon,
        }
    }
}

impl PartialEq for Item {
    fn eq(&self, other: &Self) -> (equal: bool) {
        let same_difficulty = match (self.difficulty, other.difficulty) {
            (Some(mine), Some(theirs)) => mine == theirs,
            (None, None) => true,
            _ => false,
        };
        let same_icon = match (self.icon, other.icon) {
            (Some(mine), Some(theirs)) => mine == theirs,
            (None, None) => true,
            _ => false,
        };
        self.name == other.name && self.tags == other.tags && same_text(
            &self.description,
            &other.description,
        ) && same_difficulty && same_icon
    }
}

impl Eq for Item {

}

impl vstd::std_specs::cmp::PartialEqSpecImpl for Item {
    open spec fn obeys_eq_spec() -> bool {
        true
    }

    open spec fn eq_spec(&self, other: &Self) -> bool {
        self@ == other@
    }
}

impl Default for Item {
    fn default() -> (item: Self)
        ensures
            item@ == ItemView::named(Seq::empty()),
    {
        Item {
            name: String::new(),
            tags: Tags::new(Vec::new()),
            description: None,
            difficulty: None,
            icon: None,
        }
    }
}

} // verus!
