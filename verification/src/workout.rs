//! An exercise together with the countdown that plays it.

use crate::duration::{duration_text, Duration, DurationExt};
use crate::indexedvec::CursorView;
use crate::item::{Item, ItemView};
use crate::sequence::{single_name, Sequence, SequenceView};
use crate::sound::Sound;
use crate::stopwatch::{Stopwatch, StopwatchView};
use crate::tag::{Difficulty, Tags};
use crate::text::text_view;
use vstd::prelude::*;
use vstd::string::StringExecFns;

verus! {

/// A workout as plain values.
pub struct WorkoutView {
    pub item: ItemView,
    pub stopwatch: StopwatchView,
    pub difficulty: Option<Difficulty>,
}

impl WorkoutView {
    /// A pause of `duration` seconds that has not started.
    pub open spec fn rest(duration: nat) -> Self {
        ItemView::rest().workout(duration, None)
    }

    pub open spec fn is_rest(self) -> bool {
        self.item.is_rest()
    }

    /// The same workout with its countdown back at the full span.
    pub open spec fn reset(self) -> Self {
        WorkoutView { stopwatch: self.stopwatch.reset(), ..self }
    }

    /// The same workout one second further, if it had a second left.
    pub open spec fn decrement(self) -> Self {
        WorkoutView { stopwatch: self.stopwatch.decrement(), ..self }
    }

    /// The sequence that plays this one workout: named after the item and
    /// the span, described as the item is, shown with the item's icon.
    pub open spec fn sequence(self, sound: Sound) -> SequenceView {
        SequenceView {
            name: single_name(self.item.name, self.stopwatch.duration),
            description: Some(
                match self.item.description {
                    Some(description) => description,
                    None => Seq::empty(),
                },
            ),
            workouts: CursorView::start(seq![self]),
            sound,
            rest: None,
            shuffleable: false,
            difficulty: None,
            icon: Some(
                match self.item.icon {
                    Some(icon) => icon,
                    None => '\0',
                },
            ),
        }
    }

    /// The line that shows the workout: difficulty icon, item, span, and the
    /// tags unless the workout is a rest.
    pub open spec fn label(self) -> Seq<char> {
        (match self.difficulty {
            Some(difficulty) => difficulty.icon_text() + " "@,
            None => Seq::empty(),
        }) + self.item.label() + " : "@ + duration_text(self.stopwatch.duration) + (if !self.is_rest()
            && self.item.joined_tags().len() > 0 {
            " ("@ + self.item.joined_tags() + ")"@
        } else {
            Seq::empty()
        })
    }
}

/// The workouts of a list, each as plain values.
pub open spec fn views(workouts: Seq<Workout>) -> Seq<WorkoutView> {
    workouts.map_values(|workout: Workout| workout@)
}

/// The unit the timer plays: an item and its own countdown.
#[derive(Debug, Hash)]
pub struct Workout {
    item: Item,
    stopwatch: Stopwatch,
    difficulty: Option<Difficulty>,
}

impl View for Workout {
    type V = WorkoutView;

    closed spec fn view(&self) -> WorkoutView {
        WorkoutView { item: self.item@, stopwatch: self.stopwatch@, difficulty: self.difficulty }
    }
}

impl Workout {
    pub fn new(item: Item, stopwatch: Stopwatch, difficulty: Option<Difficulty>) -> (workout: Self)
        ensures
            workout@ == (WorkoutView { item: item@, stopwatch: stopwatch@, difficulty }),
    {
        Workout { item, stopwatch, difficulty }
    }

    /// A sequence of this workout alone, with the given cue.
    pub fn sequence(&self, sound: &Sound) -> (sequence: Sequence)
        ensures
            sequence@ == self@.sequence(*sound),
    {
        let mut name = self.item.name().to_owned();
        name.append(" (");
        name.append(DurationExt::to_string(self.stopwatch.duration()).as_str());
        name.append(")");
        let description = match self.item.description() {
            Some(description) => description.clone(),
            None => String::new(),
        };
        let icon = match self.item.icon() {
            Some(icon) => icon,
            None => '\0',
        };
        let mut workouts: Vec<Workout> = Vec::new();
        workouts.push(self.clone());
        assert(views(workouts@) =~= seq![self@]);
        Sequence::new(name, Some(description), workouts, *sound, None, false, None, Some(icon))
    }

    /// A pause of `duration`.
    pub fn rest(duration: Duration) -> (workout: Self)
        ensures
            workout@ == WorkoutView::rest(duration@),
    {
        Item::rest().workout(duration)
    }

    pub fn stopwatch(&self) -> (stopwatch: &Stopwatch)
        ensures
            stopwatch@ == self@.stopwatch,
    {
        &self.stopwatch
    }

    /// The countdown, to be driven: whatever the caller does to it is what
    /// the workout holds afterwards, and nothing else changes.
    pub fn stopwatch_mut(&mut self) -> (stopwatch: &mut Stopwatch)
        ensures
            stopwatch@ == old(self)@.stopwatch,
            final(self)@ == (WorkoutView { stopwatch: final(stopwatch)@, ..old(self)@ }),
    {
        &mut self.stopwatch
    }

    pub fn is_rest(&self) -> (rest: bool)
        ensures
            rest == self@.is_rest(),
    {
        self.item.is_rest()
    }

    pub fn item(&self) -> (item: &Item)
        ensures
            item@ == self@.item,
    {
        &self.item
    }

    pub fn name(&self) -> (name: &str)
        ensures
            name@ == self@.item.name,
    {
        self.item.name()
    }

    pub fn tags(&self) -> (tags: &Tags)
        ensures
            tags@ == self@.item.tags,
    {
        self.item.tags()
    }

    pub fn description(&self) -> (description: &Option<String>)
        ensures
            text_view(*description) == self@.item.description,
    {
        self.item.description()
    }

    /// The rating given to this workout, which may differ from the item's own.
    pub fn difficulty(&self) -> (difficulty: Option<Difficulty>)
        ensures
            difficulty == self@.difficulty,
    {
        self.difficulty
    }

    /// Puts the countdown back at its full span.
    pub fn reset(&mut self)
        ensures
            final(self)@ == old(self)@.reset(),
    {
        self.stopwatch.reset();
    }

    /// Counts one second down; see [`Stopwatch::decrement`].
    pub fn decrement(&mut self) -> (success: bool)
        ensures
            success == (old(self)@.stopwatch.left > 0),
            final(self)@ == old(self)@.decrement(),
    {
        self.stopwatch.decrement()
    }

    /// Whether one, two or three seconds are left.
    pub fn last_seconds(&self) -> (soon: bool)
        ensures
            soon == self@.stopwatch.last_seconds(),
    {
        self.stopwatch.last_seconds()
    }

    /// The line that shows the workout.
    pub fn to_string(&self) -> (text: String)
        ensures
            text@ == self@.label(),
    {
        let mut text = String::new();
        if let Some(difficulty) = self.difficulty {
            text.append(difficulty.icon().as_str());
            text.append(" ");
        }
        text.append(self.item.to_string().as_str());
        text.append(" : ");
        text.append(DurationExt::to_string(self.stopwatch.duration()).as_str());
        if !self.is_rest() {
            if let Some(joined_tags) = self.item.joined_tags() {
                text.append(" (");
                text.append(joined_tags.as_str());
                text.append(")");
            }
        }
        assert(text@ =~= self@.label());
        text
    }
}

impl Clone for Workout {
    fn clone(&self) -> (copy: Self)
        ensures
            copy@ == self@,
    {
        Workout { item: self.item.clone(), stopwatch: self.stopwatch, difficulty: self.difficulty }
    }
}

impl PartialEq for Workout {
    fn eq(&self, other: &Self) -> (equal: bool) {
        let same_difficulty = match (self.difficulty, other.difficulty) {
            (Some(mine), Some(theirs)) => mine == theirs,
            (None, None) => true,
            _ => false,
        };
        self.item == other.item && self.stopwatch == other.stopwatch && same_difficulty
    }
}

impl Eq for Workout {

}

impl vstd::std_specs::cmp::PartialEqSpecImpl for Workout {
    open spec fn obeys_eq_spec() -> bool {
        true
    }

    open spec fn eq_spec(&self, other: &Self) -> bool {
        self@ == other@
    }
}

impl Default for Workout {
    fn default() -> (workout: Self)
        ensures
            workout@ == ItemView::named(Seq::empty()).workout(0, None),
    {
        Workout { item: Item::default(), stopwatch: Stopwatch::default(), difficulty: None }
    }
}

} // verus!
