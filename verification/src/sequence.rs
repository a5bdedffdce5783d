//! A named, ordered list of workouts, and the ways to build and walk it.

use crate::duration::{decimal, duration_text, push_decimal, Duration, DurationExt};
use crate::exercises::{workouts_on, Exercises};
use crate::indexedvec::{CursorView, IndexedVec};
use crate::item::NO_ICON;
use crate::intersperse::{
    interleaves, interspersed, lemma_interspersed_push, lemma_items_of_interleaved,
    lemma_separators_of_interleaved, repeated,
};
use crate::shuffle::{
    is_permutation, lemma_permutation_len, lemma_permutation_map, shuffle_in_place,
};
use crate::slugs::{position_of, slug_of, slugify};
use crate::sound::Sound;
use crate::stopwatch::Stopwatch;
use crate::tag::{Difficulty, Tag};
use crate::text::{clone_text, same_text, text_view};
use crate::unique::{deduplicated, lemma_deduplicated_concat};
use crate::workout::{views, Workout, WorkoutView};
use vstd::prelude::*;
use vstd::std_specs::cmp::PartialEqSpec;
use vstd::string::StringExecFns;

verus! {

/// Which seconds of a workout a total counts.
#[derive(Clone, Copy, Debug, PartialEq, Eq, Structural)]
pub enum Share {
    /// The full span of every workout.
    Whole,
    /// What is left of every workout.
    Left,
    /// The full span of the workouts that are no rest.
    Work,
    /// The full span of the rests.
    Rest,
}

impl Share {
    /// The seconds of `workout` that this share counts.
    pub open spec fn of(self, workout: WorkoutView) -> nat {
        match self {
            Share::Whole => workout.stopwatch.duration,
            Share::Left => workout.stopwatch.left,
            Share::Work => if workout.is_rest() {
                0
            } else {
                workout.stopwatch.duration
            },
            Share::Rest => if workout.is_rest() {
                workout.stopwatch.duration
            } else {
                0
            },
        }
    }

    /// The seconds this share counts over a whole list.
    pub open spec fn sum(self, workouts: Seq<WorkoutView>) -> nat
        decreases workouts.len(),
    {
        if workouts.len() == 0 {
            0
        } else {
            self.sum(workouts.drop_last()) + self.of(workouts.last())
        }
    }
}

/// A count of seconds cut down to what a duration can hold.
pub open spec fn clamped(secs: nat) -> nat {
    if secs <= u64::MAX {
        secs
    } else {
        u64::MAX as nat
    }
}

/// The tags of the workouts that are no rest, workout after workout.
pub open spec fn work_tags(workouts: Seq<WorkoutView>) -> Seq<Tag>
    decreases workouts.len(),
{
    if workouts.len() == 0 {
        Seq::empty()
    } else {
        work_tags(workouts.drop_last()) + if workouts.last().is_rest() {
            Seq::empty()
        } else {
            workouts.last().item.tags
        }
    }
}

/// What an optional borrowed text reads, if it is there.
pub open spec fn str_view(text: Option<&str>) -> Option<Seq<char>> {
    match text {
        Some(text) => Some(text@),
        None => None,
    }
}

/// Picks out the workouts that are no rest.
pub open spec fn is_work() -> spec_fn(WorkoutView) -> bool {
    |workout: WorkoutView| !workout.is_rest()
}

/// Picks out the rests.
pub open spec fn is_pause() -> spec_fn(WorkoutView) -> bool {
    |workout: WorkoutView| workout.is_rest()
}

/// The name of a sequence built from a plain list: the total time is appended.
pub open spec fn simple_name(name: Seq<char>, total: nat) -> Seq<char> {
    name + " ("@ + duration_text(total) + " total)"@
}

/// The name of a sequence built from rounds: the rest is appended, in seconds.
pub open spec fn rounds_name(name: Seq<char>, rest: nat) -> Seq<char> {
    name + " ("@ + decimal(rest) + "s rest)"@
}

/// The name of the sequence that plays a single workout: the span is appended.
pub open spec fn single_name(name: Seq<char>, duration: nat) -> Seq<char> {
    name + " ("@ + duration_text(duration) + ")"@
}

/// A copy of a workout shows what the workout shows.
pub proof fn lemma_cloned_views(workouts: Seq<Workout>, copies: Seq<Workout>)
    requires
        copies.len() == workouts.len(),
        forall|i: int| 0 <= i < workouts.len() ==> cloned(workouts[i], #[trigger] copies[i]),
    ensures
        views(copies) == views(workouts),
{
    assert(views(copies) =~= views(workouts));
}

/// Replacing one workout of a list replaces its view in the list of views.
pub proof fn lemma_update_views(workouts: Seq<Workout>, position: int, workout: Workout)
    requires
        0 <= position < workouts.len(),
    ensures
        workouts.update(position, workout).map_values(|workout: Workout| workout@)
            == workouts.map_values(|workout: Workout| workout@).update(position, workout@),
{
    assert(workouts.update(position, workout).map_values(|workout: Workout| workout@)
        =~= workouts.map_values(|workout: Workout| workout@).update(position, workout@));
}

/// A workout that was stepped onto and started over, and then changed by
/// whoever holds it, stands in the list as it was left: starting it over in
/// between leaves no trace.
pub proof fn lemma_landed(workouts: Seq<Workout>, position: int, landed: Workout)
    requires
        0 <= position < workouts.len(),
    ensures
        views(workouts.update(position, landed)) == views(workouts).update(position, landed@),
        views(workouts).update(position, views(workouts)[position].reset()).update(
            position,
            landed@,
        ) == views(workouts).update(position, landed@),
{
    lemma_update_views(workouts, position, landed);
    assert(views(workouts).update(position, views(workouts)[position].reset()).update(
        position,
        landed@,
    ) =~= views(workouts).update(position, landed@));
}

/// A sequence as plain values.
pub struct SequenceView {
    pub name: Seq<char>,
    pub description: Option<Seq<char>>,
    pub workouts: CursorView<WorkoutView>,
    pub sound: Sound,
    /// The rest that a shuffle puts back between the workouts, in seconds.
    pub rest: Option<nat>,
    pub shuffleable: bool,
    pub difficulty: Option<Difficulty>,
    pub icon: Option<char>,
}

impl SequenceView {
    pub open spec fn well_formed(self) -> bool {
        self.workouts.well_formed()
    }

    /// The workout being played, if any.
    pub open spec fn current(self) -> Option<WorkoutView> {
        self.workouts.current()
    }

    /// The same sequence with `workout` in place of the current one.
    pub open spec fn with_current(self, workout: WorkoutView) -> Self {
        SequenceView { workouts: self.workouts.with_current(workout), ..self }
    }

    /// The current workout starts over; nothing happens without one.
    pub open spec fn reset_workout(self) -> Self {
        match self.current() {
            Some(workout) => self.with_current(workout.reset()),
            None => self,
        }
    }

    /// The current workout is one second further, if it had one left.
    pub open spec fn decrement(self) -> Self {
        match self.current() {
            Some(workout) => self.with_current(workout.decrement()),
            None => self,
        }
    }

    /// Whether there is a current workout with time left.
    pub open spec fn can_decrement(self) -> bool {
        match self.current() {
            Some(workout) => workout.stopwatch.left > 0,
            None => false,
        }
    }

    /// Whether the current workout is in its last three seconds.
    pub open spec fn last_seconds(self) -> bool {
        match self.current() {
            Some(workout) => workout.stopwatch.last_seconds(),
            None => false,
        }
    }

    /// The workout at `index` becomes current and starts over; with no such
    /// workout, none is current.
    pub open spec fn start_at(self, index: nat) -> Self {
        (SequenceView { workouts: self.workouts.moved_to(index), ..self }).reset_workout()
    }

    /// The step the timer takes by itself: on to the following workout, which
    /// starts over, or off the end after the last one.
    pub open spec fn auto_next(self) -> Self {
        (SequenceView { workouts: self.workouts.advanced(), ..self }).reset_workout()
    }

    /// The step the user takes forward: on to the following workout, or back
    /// to the first one after the last. The workout moved to starts over.
    pub open spec fn manual_next(self) -> Self {
        (SequenceView {
            workouts: if self.workouts.is_last() {
                self.workouts.moved_to(0)
            } else {
                self.workouts.advanced()
            },
            ..self
        }).reset_workout()
    }

    /// The step the user takes back, wrapping to the last workout. The
    /// workout moved to starts over.
    pub open spec fn goto_previous(self) -> Self {
        (SequenceView { workouts: self.workouts.retreated(), ..self }).reset_workout()
    }

    /// No workout is current any more, and every workout starts over.
    pub open spec fn reset(self) -> Self {
        SequenceView {
            workouts: CursorView {
                items: self.workouts.items.map_values(|workout: WorkoutView| workout.reset()),
                position: None,
            },
            ..self
        }
    }

    /// The seconds that `share` counts over the sequence.
    pub open spec fn total(self, share: Share) -> nat {
        share.sum(self.workouts.items)
    }

    /// The distinct tags of the workouts that are no rest.
    pub open spec fn tags(self) -> Seq<Tag> {
        deduplicated(work_tags(self.workouts.items))
    }

    /// What a shuffle may turn the sequence into. A sequence that is not
    /// shuffle-eligible stays as it is. One that remembers a rest loses
    /// every rest, whatever its countdown has come to, has the other
    /// workouts reordered, and gets a rest that has not started between
    /// each two of them; no workout is current afterwards. One without a
    /// remembered rest has its workouts reordered under the cursor.
    pub open spec fn shuffled_into(self, after: SequenceView) -> bool {
        if !self.shuffleable {
            after == self
        } else {
            match self.rest {
                Some(rest) => exists|order: Seq<WorkoutView>|
                    {
                        &&& is_permutation(order, self.workouts.items.filter(is_work()))
                        &&& after == (SequenceView {
                            workouts: CursorView::start(
                                #[trigger] interspersed(order, WorkoutView::rest(rest)),
                            ),
                            ..self
                        })
                    },
                None => {
                    &&& is_permutation(after.workouts.items, self.workouts.items)
                    &&& after == (SequenceView {
                        workouts: CursorView {
                            items: after.workouts.items,
                            position: self.workouts.position,
                        },
                        ..self
                    })
                },
            }
        }
    }

    /// The sequence remembers a rest of `rest` seconds, and its workouts are
    /// `work`, none of them a rest, with a rest between each two, whatever
    /// the countdowns of the rests have come to.
    pub open spec fn rest_interspersed(self, work: Seq<WorkoutView>, rest: nat) -> bool {
        &&& self.rest == Some(rest)
        &&& interleaves(self.workouts.items, work, is_pause())
        &&& forall|i: int| 0 <= i < work.len() ==> !(#[trigger] work[i]).is_rest()
    }

    /// How many of the workouts are rests.
    pub open spec fn rest_count(self) -> nat {
        self.workouts.items.filter(is_pause()).len()
    }

    /// A shuffle of a shuffle-eligible sequence whose workouts are
    /// interspersed with rests keeps the pattern, however far the sequence
    /// has been played: as many slots as before and as many rests, a rest
    /// that has not started on every odd slot, and on the even slots the
    /// workouts that were there before, each as often, in some order.
    pub proof fn lemma_shuffle_keeps_interleave(
        self,
        after: SequenceView,
        work: Seq<WorkoutView>,
        rest: nat,
    )
        requires
            self.shuffleable,
            self.rest_interspersed(work, rest),
            self.shuffled_into(after),
        ensures
            after.workouts.items.len() == self.workouts.items.len(),
            after.rest_count() == self.rest_count(),
            forall|slot: int|
                0 <= slot < after.workouts.items.len() && slot % 2 == 1
                    ==> #[trigger] after.workouts.items[slot] == WorkoutView::rest(rest),
            forall|slot: int|
                0 <= slot < after.workouts.items.len() && slot % 2 == 0 ==> !(
                #[trigger] after.workouts.items[slot]).is_rest(),
            is_permutation(
                Seq::new(work.len(), |k: int| after.workouts.items[2 * k]),
                work,
            ),
            exists|order: Seq<WorkoutView>|
                is_permutation(order, work) && after.rest_interspersed(order, rest),
            after.workouts.position is None,
    {
        let fresh = WorkoutView::rest(rest);
        assert(fresh.is_rest()) by {
            assert(fresh.item.tags[0] == Tag::Rest);
        }
        lemma_items_of_interleaved(self.workouts.items, work, is_pause(), is_work());
        let order = choose|order: Seq<WorkoutView>|
            {
                &&& is_permutation(order, self.workouts.items.filter(is_work()))
                &&& after == (SequenceView {
                    workouts: CursorView::start(#[trigger] interspersed(order, fresh)),
                    ..self
                })
            };
        lemma_permutation_len(order, work);
        assert(Seq::new(work.len(), |k: int| after.workouts.items[2 * k]) =~= order);
        assert forall|i: int| 0 <= i < order.len() implies !(#[trigger] order[i]).is_rest() by {
            order.to_multiset_ensures();
            work.to_multiset_ensures();
            assert(order.contains(order[i]));
            assert(order.to_multiset().count(order[i]) > 0);
            assert(work.to_multiset().count(order[i]) > 0);
            assert(work.contains(order[i]));
        }
        assert(interleaves(after.workouts.items, order, is_pause()));
        assert(after.rest_interspersed(order, rest));
        lemma_separators_of_interleaved(self.workouts.items, work, is_pause(), is_pause());
        lemma_separators_of_interleaved(after.workouts.items, order, is_pause(), is_pause());
        assert forall|slot: int|
            0 <= slot < after.workouts.items.len() && slot % 2 == 0 implies !(
        #[trigger] after.workouts.items[slot]).is_rest() by {
            assert(after.workouts.items[slot] == order[slot / 2]);
        }
    }

    /// Putting the current workout in its own place changes nothing.
    pub proof fn lemma_with_current_same(self)
        ensures
            match self.current() {
                Some(workout) => self.with_current(workout) == self,
                None => true,
            },
    {
        if let Some(workout) = self.current() {
            assert(self.with_current(workout).workouts.items =~= self.workouts.items);
        }
    }

    /// Counting down changes nothing once the current workout has expired,
    /// nor when no workout is current.
    pub proof fn lemma_decrement_expired(self)
        requires
            !self.can_decrement(),
        ensures
            self.decrement() == self,
    {
        self.lemma_with_current_same();
    }

    /// Manual steps never leave a sequence that has workouts without a current one.
    pub proof fn lemma_manual_steps_wrap(self)
        requires
            self.well_formed(),
            self.workouts.items.len() > 0,
        ensures
            self.manual_next().current() is Some,
            self.goto_previous().current() is Some,
            self.current() is None ==> self.manual_next().workouts.position == Some(0nat),
            self.workouts.is_last() ==> self.manual_next().workouts.position == Some(0nat),
            self.current() is None ==> self.goto_previous().workouts.position == Some(
                (self.workouts.items.len() - 1) as nat,
            ),
    {
    }

    /// Every way of walking keeps the sequence well formed and its length.
    pub proof fn lemma_walks_keep_well_formed(self)
        requires
            self.well_formed(),
        ensures
            self.auto_next().well_formed(),
            self.start_at(0).well_formed(),
            self.manual_next().well_formed(),
            self.goto_previous().well_formed(),
            self.decrement().well_formed(),
            self.reset_workout().well_formed(),
            self.reset().well_formed(),
            self.auto_next().workouts.items.len() == self.workouts.items.len(),
            self.manual_next().workouts.items.len() == self.workouts.items.len(),
            self.goto_previous().workouts.items.len() == self.workouts.items.len(),
            self.decrement().workouts.items.len() == self.workouts.items.len(),
            self.reset().workouts.items.len() == self.workouts.items.len(),
    {
    }
}

/// An ordered list of workouts with a name, a cue and a cursor on the workout being played.
#[derive(Debug, Hash)]
pub struct Sequence {
    name: String,
    description: Option<String>,
    workouts: IndexedVec<Workout>,
    sound: Sound,
    rest: Option<Duration>,
    shuffleable: bool,
    difficulty: Option<Difficulty>,
    icon: Option<char>,
}

impl View for Sequence {
    type V = SequenceView;

    closed spec fn view(&self) -> SequenceView {
        SequenceView {
            name: self.name@,
            description: text_view(self.description),
            workouts: self.workouts@.map(|workout: Workout| workout@),
            sound: self.sound,
            rest: match self.rest {
                Some(rest) => Some(rest@),
                None => None,
            },
            shuffleable: self.shuffleable,
            difficulty: self.difficulty,
            icon: self.icon,
        }
    }
}

impl Sequence {
    /// A sequence made of the given parts, with no workout current.
    pub fn new(
        name: String,
        description: Option<String>,
        workouts: Vec<Workout>,
        sound: Sound,
        rest: Option<Duration>,
        shuffleable: bool,
        difficulty: Option<Difficulty>,
        icon: Option<char>,
    ) -> (sequence: Self)
        ensures
            sequence@ == (SequenceView {
                name: name@,
                description: text_view(description),
                workouts: CursorView::start(views(workouts@)),
                sound,
                rest: match rest {
                    Some(rest) => Some(rest@),
                    None => None,
                },
                shuffleable,
                difficulty,
                icon,
            }),
    {
        Sequence {
            name,
            description,
            workouts: IndexedVec::from_vec(workouts),
            sound,
            rest,
            shuffleable,
            difficulty,
            icon,
        }
    }

    /// An owned copy of an optional borrowed text.
    fn owned(text: Option<&str>) -> (copy: Option<String>)
        ensures
            text_view(copy) == str_view(text),
    {
        match text {
            Some(text) => Some(text.to_owned()),
            None => None,
        }
    }

    /// Copies of the given workouts, in order.
    fn copied(workouts: &[Workout]) -> (copies: Vec<Workout>)
        ensures
            views(copies@) == views(workouts@),
    {
        let mut copies: Vec<Workout> = Vec::new();
        let mut i: usize = 0;
        while i < workouts.len()
            invariant
                i <= workouts@.len(),
                views(copies@) == views(workouts@).subrange(0, i as int),
            decreases workouts@.len() - i,
        {
            let ghost before = copies@;
            copies.push(workouts[i].clone());
            assert(views(copies@) =~= views(before).push(workouts@[i as int]@));
            assert(views(copies@) =~= views(workouts@).subrange(0, i + 1));
            i += 1;
        }
        assert(views(workouts@).subrange(0, i as int) =~= views(workouts@));
        copies
    }

    /// Copies of the given workouts with a copy of `rest` between each two.
    fn with_rests(workouts: &Vec<Workout>, rest: &Workout) -> (spaced: Vec<Workout>)
        ensures
            views(spaced@) == interspersed(views(workouts@), rest@),
    {
        let mut spaced: Vec<Workout> = Vec::new();
        let mut i: usize = 0;
        assert(views(spaced@) =~= interspersed(views(workouts@).subrange(0, 0), rest@));
        while i < workouts.len()
            invariant
                i <= workouts@.len(),
                views(spaced@) == interspersed(views(workouts@).subrange(0, i as int), rest@),
            decreases workouts@.len() - i,
        {
            let ghost before = spaced@;
            let ghost done = views(workouts@).subrange(0, i as int);
            proof {
                lemma_interspersed_push(done, rest@, workouts@[i as int]@);
                assert(done.push(workouts@[i as int]@) =~= views(workouts@).subrange(0, i + 1));
            }
            if i > 0 {
                spaced.push(rest.clone());
                let ghost between = spaced@;
                assert(views(between) =~= views(before).push(rest@));
                spaced.push(workouts[i].clone());
                assert(views(spaced@) =~= views(between).push(workouts@[i as int]@));
            } else {
                assert(views(before).len() == 0);
                spaced.push(workouts[i].clone());
                assert(views(spaced@) =~= seq![workouts@[i as int]@]);
            }
            i += 1;
        }
        assert(views(workouts@).subrange(0, i as int) =~= views(workouts@));
        spaced
    }

    /// The given workouts in their order, without rests. The name gets the
    /// total time appended. Such a sequence is not shuffle-eligible.
    pub fn simple(
        name: &str,
        description: Option<&str>,
        workouts: &[Workout],
        sound: &Sound,
        difficulty: Option<Difficulty>,
        icon: Option<char>,
    ) -> (sequence: Self)
        ensures
            sequence@ == (SequenceView {
                name: simple_name(name@, clamped(Share::Whole.sum(views(workouts@)))),
                description: str_view(description),
                workouts: CursorView::start(views(workouts@)),
                sound: *sound,
                rest: None,
                shuffleable: false,
                difficulty,
                icon,
            }),
    {
        let copies = Self::copied(workouts);
        let total = Self::sum(&copies, Share::Whole);
        let mut full_name = name.to_owned();
        full_name.append(" (");
        full_name.append(DurationExt::to_string(&total).as_str());
        full_name.append(" total)");
        Self::new(
            full_name,
            Self::owned(description),
            copies,
            *sound,
            None,
            false,
            difficulty,
            icon,
        )
    }

    /// `rounds` times the same workout with a rest between each two rounds.
    /// The name gets the rest appended. Such a sequence is not shuffle-eligible.
    pub fn rounds(
        name: &str,
        description: Option<&str>,
        rounds: usize,
        workout: Workout,
        rest: Duration,
        sound: &Sound,
        difficulty: Option<Difficulty>,
        icon: Option<char>,
    ) -> (sequence: Self)
        ensures
            sequence@ == (SequenceView {
                name: rounds_name(name@, rest@),
                description: str_view(description),
                workouts: CursorView::start(
                    interspersed(
                        Seq::new(rounds as nat, |round: int| workout@),
                        WorkoutView::rest(rest@),
                    ),
                ),
                sound: *sound,
                rest: None,
                shuffleable: false,
                difficulty,
                icon,
            }),
    {
        let pause = Workout::rest(rest);
        let mut repeated_workout: Vec<Workout> = Vec::new();
        let mut round: usize = 0;
        while round < rounds
            invariant
                round <= rounds,
                views(repeated_workout@) == Seq::new(round as nat, |round: int| workout@),
            decreases rounds - round,
        {
            let ghost before = repeated_workout@;
            repeated_workout.push(workout.clone());
            assert(views(repeated_workout@) =~= views(before).push(workout@));
            assert(views(repeated_workout@) =~= Seq::new(
                (round + 1) as nat,
                |round: int| workout@,
            ));
            round += 1;
        }
        let spaced = Self::with_rests(&repeated_workout, &pause);
        Self::new(
            Self::rest_suffixed(name, &rest),
            Self::owned(description),
            spaced,
            *sound,
            None,
            false,
            difficulty,
            icon,
        )
    }

    /// The name with the rest appended, as in `"Tabata (10s rest)"`.
    fn rest_suffixed(name: &str, rest: &Duration) -> (full_name: String)
        ensures
            full_name@ == rounds_name(name@, rest@),
    {
        let mut full_name = name.to_owned();
        full_name.append(" (");
        push_decimal(&mut full_name, rest.as_secs());
        full_name.append("s rest)");
        full_name
    }

    /// `rounds` times through all the exercises, `workout` long each, with a
    /// rest between each two rounds. The name gets the rest appended. Such a
    /// sequence is not shuffle-eligible.
    pub fn repeat(
        name: &str,
        description: Option<&str>,
        exercises: Exercises,
        workout: Duration,
        rounds: usize,
        rest: Duration,
        sound: &Sound,
        difficulty: Option<Difficulty>,
        icon: Option<char>,
    ) -> (sequence: Self)
        ensures
            sequence@ == (SequenceView {
                name: rounds_name(name@, rest@),
                description: str_view(description),
                workouts: CursorView::start(
                    repeated(
                        workouts_on(exercises@, workout@),
                        WorkoutView::rest(rest@),
                        rounds as nat,
                    ),
                ),
                sound: *sound,
                rest: None,
                shuffleable: false,
                difficulty,
                icon,
            }),
    {
        let pause = Workout::rest(rest);
        let block = exercises.workouts(workout);
        let mut all: Vec<Workout> = Vec::new();
        let mut round: usize = 0;
        assert(views(all@) =~= repeated(views(block@), pause@, 0));
        while round < rounds
            invariant
                round <= rounds,
                views(all@) == repeated(views(block@), pause@, round as nat),
            decreases rounds - round,
        {
            let ghost done = views(all@);
            if round > 0 {
                let ghost before = all@;
                all.push(pause.clone());
                assert(views(all@) =~= views(before).push(pause@));
            }
            let ghost base = views(all@);
            let mut i: usize = 0;
            assert(views(all@) =~= base + views(block@).subrange(0, 0));
            while i < block.len()
                invariant
                    i <= block@.len(),
                    views(all@) == base + views(block@).subrange(0, i as int),
                decreases block@.len() - i,
            {
                let ghost before = all@;
                all.push(block[i].clone());
                assert(views(all@) =~= views(before).push(block@[i as int]@));
                assert(views(all@) =~= base + views(block@).subrange(0, i + 1));
                i += 1;
            }
            assert(views(block@).subrange(0, i as int) =~= views(block@));
            assert(views(all@) =~= repeated(views(block@), pause@, (round + 1) as nat)) by {
                if round == 0 {
                    assert(base =~= Seq::<WorkoutView>::empty());
                }
            }
            round += 1;
        }
        Self::new(
            Self::rest_suffixed(name, &rest),
            Self::owned(description),
            all,
            *sound,
            None,
            false,
            difficulty,
            icon,
        )
    }

    /// The given workouts in a random order with a rest between each two.
    /// The sequence is shuffle-eligible and remembers its rest.
    pub fn random(
        name: &str,
        description: Option<&str>,
        workouts: &[Workout],
        rest: Duration,
        sound: &Sound,
        difficulty: Option<Difficulty>,
        icon: Option<char>,
    ) -> (sequence: Self)
        ensures
            exists|order: Seq<WorkoutView>|
                {
                    &&& is_permutation(order, views(workouts@))
                    &&& sequence@ == (SequenceView {
                        name: name@,
                        description: str_view(description),
                        workouts: CursorView::start(
                            #[trigger] interspersed(order, WorkoutView::rest(rest@)),
                        ),
                        sound: *sound,
                        rest: Some(rest@),
                        shuffleable: true,
                        difficulty,
                        icon,
                    })
                },
    {
        let mut copies = Self::copied(workouts);
        let ghost before = copies@;
        shuffle_in_place(&mut copies);
        proof {
            lemma_permutation_map(copies@, before, |workout: Workout| workout@);
        }
        let spaced = Self::with_rests(&copies, &Workout::rest(rest));
        let sequence = Self::new(
            name.to_owned(),
            Self::owned(description),
            spaced,
            *sound,
            Some(rest),
            true,
            difficulty,
            icon,
        );
        assert(is_permutation(views(copies@), views(workouts@)));
        sequence
    }

    /// The seconds that `share` counts over the workouts, cut down to what a
    /// duration can hold.
    fn sum(workouts: &Vec<Workout>, share: Share) -> (total: Duration)
        ensures
            total@ == clamped(share.sum(views(workouts@))),
    {
        let mut secs: u64 = 0;
        let mut i: usize = 0;
        assert(views(workouts@).subrange(0, 0) =~= Seq::<WorkoutView>::empty());
        while i < workouts.len()
            invariant
                i <= workouts@.len(),
                secs == clamped(share.sum(views(workouts@).subrange(0, i as int))),
            decreases workouts@.len() - i,
        {
            let workout = &workouts[i];
            let counted = match share {
                Share::Whole => workout.stopwatch().duration().as_secs(),
                Share::Left => workout.stopwatch().left().as_secs(),
                Share::Work => if workout.is_rest() {
                    0
                } else {
                    workout.stopwatch().duration().as_secs()
                },
                Share::Rest => if workout.is_rest() {
                    workout.stopwatch().duration().as_secs()
                } else {
                    0
                },
            };
            proof {
                let longer = views(workouts@).subrange(0, i + 1);
                assert(longer.drop_last() =~= views(workouts@).subrange(0, i as int));
                assert(longer.last() == workout@);
                assert(counted == share.of(workout@));
            }
            secs = secs.saturating_add(counted);
            i += 1;
        }
        assert(views(workouts@).subrange(0, i as int) =~= views(workouts@));
        Duration::from_secs(secs)
    }

    /// The time the whole sequence takes. Totals stop at the largest duration.
    pub fn total(&self) -> (total: Duration)
        ensures
            total@ == clamped(self@.total(Share::Whole)),
    {
        Self::sum(self.workouts.store(), Share::Whole)
    }

    /// The time that is left on all the workouts together.
    pub fn left_total(&self) -> (total: Duration)
        ensures
            total@ == clamped(self@.total(Share::Left)),
    {
        Self::sum(self.workouts.store(), Share::Left)
    }

    /// The time the workouts that are no rest take.
    pub fn workout_total(&self) -> (total: Duration)
        ensures
            total@ == clamped(self@.total(Share::Work)),
    {
        Self::sum(self.workouts.store(), Share::Work)
    }

    /// The time the rests take.
    pub fn rest_total(&self) -> (total: Duration)
        ensures
            total@ == clamped(self@.total(Share::Rest)),
    {
        Self::sum(self.workouts.store(), Share::Rest)
    }

    /// The distinct tags of the workouts that are no rest, in the order they first appear.
    pub fn tags(&self) -> (tags: Vec<Tag>)
        ensures
            tags@ == self@.tags(),
    {
        let workouts = self.workouts.store();
        let mut tags: Vec<Tag> = Vec::new();
        let mut i: usize = 0;
        assert(views(workouts@).subrange(0, 0) =~= Seq::<WorkoutView>::empty());
        while i < workouts.len()
            invariant
                i <= workouts@.len(),
                tags@ == deduplicated(work_tags(views(workouts@).subrange(0, i as int))),
            decreases workouts@.len() - i,
        {
            let workout = &workouts[i];
            let ghost done = work_tags(views(workouts@).subrange(0, i as int));
            proof {
                let longer = views(workouts@).subrange(0, i + 1);
                assert(longer.drop_last() =~= views(workouts@).subrange(0, i as int));
                assert(longer.last() == workout@);
                lemma_deduplicated_concat(done, workout@.item.tags);
                assert(done + Seq::<Tag>::empty() =~= done);
            }
            if !workout.is_rest() {
                workout.tags().add_new_to(&mut tags);
            }
            i += 1;
        }
        assert(views(workouts@).subrange(0, i as int) =~= views(workouts@));
        tags
    }

    /// Copies of the workouts that are no rest, in order.
    fn without_rests(workouts: &Vec<Workout>) -> (work: Vec<Workout>)
        ensures
            views(work@) == views(workouts@).filter(is_work()),
    {
        let mut work: Vec<Workout> = Vec::new();
        let mut i: usize = 0;
        proof {
            reveal(Seq::filter);
            assert(views(workouts@).subrange(0, 0) =~= Seq::<WorkoutView>::empty());
            assert(views(work@) =~= views(workouts@).subrange(0, 0).filter(is_work()));
        }
        while i < workouts.len()
            invariant
                i <= workouts@.len(),
                views(work@) == views(workouts@).subrange(0, i as int).filter(is_work()),
            decreases workouts@.len() - i,
        {
            proof {
                let seen = views(workouts@).subrange(0, i as int);
                assert(seen.push(workouts@[i as int]@) =~= views(workouts@).subrange(0, i + 1));
                seen.lemma_filter_push(workouts@[i as int]@, is_work());
            }
            if !workouts[i].is_rest() {
                let ghost before = work@;
                work.push(workouts[i].clone());
                assert(views(work@) =~= views(before).push(workouts@[i as int]@));
            }
            i += 1;
        }
        assert(views(workouts@).subrange(0, i as int) =~= views(workouts@));
        work
    }

    /// Reorders a shuffle-eligible sequence at random; any other sequence is
    /// left as it is. Where a rest is remembered, every rest is taken out,
    /// however far it has been played, the remaining workouts are reordered
    /// and a rest that has not started is put between each two, after which
    /// no workout is current. Otherwise the workouts are reordered in place.
    pub fn shuffle(&mut self)
        ensures
            old(self)@.shuffled_into(final(self)@),
    {
        if self.shuffleable {
            if let Some(rest) = self.rest {
                let pause = Workout::rest(rest);
                let mut work = Self::without_rests(self.workouts.store());
                let ghost kept = work@;
                shuffle_in_place(&mut work);
                let spaced = Self::with_rests(&work, &pause);
                self.workouts = IndexedVec::from_vec(spaced);
                proof {
                    lemma_permutation_map(work@, kept, |workout: Workout| workout@);
                    let order = views(work@);
                    assert(is_permutation(order, old(self)@.workouts.items.filter(is_work())));
                    assert(self@.workouts == CursorView::start(
                        interspersed(order, WorkoutView::rest(rest@)),
                    ));
                }
            } else {
                let ghost before = self.workouts@.items;
                self.workouts.shuffle();
                proof {
                    lemma_permutation_map(
                        self.workouts@.items,
                        before,
                        |workout: Workout| workout@,
                    );
                }
            }
        }
    }

    pub fn name(&self) -> (name: &str)
        ensures
            name@ == self@.name,
    {
        self.name.as_str()
    }

    pub fn description(&self) -> (description: &Option<String>)
        ensures
            text_view(*description) == self@.description,
    {
        &self.description
    }

    pub fn sound(&self) -> (sound: &Sound)
        ensures
            *sound == self@.sound,
    {
        &self.sound
    }

    /// The rest that a shuffle puts back between the workouts.
    pub fn rest(&self) -> (rest: Option<Duration>)
        ensures
            match rest {
                Some(rest) => self@.rest == Some(rest@),
                None => self@.rest is None,
            },
    {
        self.rest
    }

    pub fn shufflable(&self) -> (shufflable: bool)
        ensures
            shufflable == self@.shuffleable,
    {
        self.shuffleable
    }

    pub fn difficulty(&self) -> (difficulty: Option<Difficulty>)
        ensures
            difficulty == self@.difficulty,
    {
        self.difficulty
    }

    pub fn icon(&self) -> (icon: Option<char>)
        ensures
            icon == self@.icon,
    {
        self.icon
    }

    /// The icon, or the invisible mark that stands in for it, followed by the name.
    pub fn to_string(&self) -> (text: String)
        ensures
            text@ == seq![
                match self@.icon {
                    Some(icon) => icon,
                    None => NO_ICON,
                },
            ] + self@.name,
    {
        let mut text = String::new();
        match self.icon {
            Some(icon) => text.push(icon),
            None => text.push(NO_ICON),
        }
        text.append(self.name.as_str());
        text
    }

    /// The slug of the sequence's name.
    pub fn slug(&self) -> (slug: String)
        ensures
            slug@ == slug_of(self@.name),
    {
        slugify(self.name.as_str())
    }

    pub fn len(&self) -> (len: usize)
        ensures
            len == self@.workouts.items.len(),
            self@.well_formed(),
    {
        self.workouts.len()
    }

    pub fn is_empty(&self) -> (empty: bool)
        ensures
            empty == (self@.workouts.items.len() == 0),
            self@.well_formed(),
    {
        self.workouts.is_empty()
    }

    /// The position of the current workout. It always points at a workout.
    pub fn index(&self) -> (index: Option<usize>)
        ensures
            self@.well_formed(),
            match index {
                Some(index) => self@.workouts.position == Some(index as nat),
                None => self@.workouts.position is None,
            },
    {
        self.workouts.index()
    }

    /// Whether nothing follows the current workout; true of an empty sequence.
    pub fn last(&self) -> (last: bool)
        ensures
            last == self@.workouts.is_last(),
    {
        self.workouts.last()
    }

    /// The workouts, in order.
    pub fn workouts(&self) -> (workouts: &Vec<Workout>)
        ensures
            views(workouts@) == self@.workouts.items,
    {
        self.workouts.store()
    }

    /// The current workout.
    pub fn get(&self) -> (workout: Option<&Workout>)
        ensures
            match workout {
                Some(workout) => self@.current() == Some(workout@),
                None => self@.current() is None,
            },
    {
        self.workouts.get()
    }

    /// The current workout, to be changed in place.
    pub fn get_mut(&mut self) -> (workout: Option<&mut Workout>)
        ensures
            match workout {
                Some(workout) => {
                    &&& old(self)@.current() == Some(workout@)
                    &&& final(self)@ == old(self)@.with_current(final(workout)@)
                },
                None => {
                    &&& old(self)@.current() is None
                    &&& final(self)@ == old(self)@
                },
            },
    {
        match self.workouts.get_mut() {
            Some(workout) => {
                proof {
                    lemma_update_views(
                        old(self).workouts@.items,
                        old(self).workouts@.position.unwrap() as int,
                        *final(workout),
                    );
                }
                Some(workout)
            },
            None => None,
        }
    }

    /// The countdown of the current workout.
    pub fn stopwatch(&self) -> (stopwatch: Option<&Stopwatch>)
        ensures
            match stopwatch {
                Some(stopwatch) => self@.current() is Some && self@.current().unwrap().stopwatch
                    == stopwatch@,
                None => self@.current() is None,
            },
    {
        match self.workouts.get() {
            Some(workout) => Some(workout.stopwatch()),
            None => None,
        }
    }

    /// Whether the current workout is in its last three seconds.
    pub fn last_seconds(&self) -> (soon: bool)
        ensures
            soon == self@.last_seconds(),
    {
        match self.workouts.get() {
            Some(workout) => workout.last_seconds(),
            None => false,
        }
    }

    /// Starts the current workout over; nothing happens without one.
    pub fn reset_workout(&mut self)
        ensures
            final(self)@ == old(self)@.reset_workout(),
    {
        if let Some(workout) = self.get_mut() {
            workout.reset();
        }
    }

    /// Counts one second of the current workout down. Returns whether there
    /// was a current workout with a second left.
    pub fn decrement(&mut self) -> (success: bool)
        ensures
            success == old(self)@.can_decrement(),
            final(self)@ == old(self)@.decrement(),
    {
        match self.get_mut() {
            Some(workout) => workout.decrement(),
            None => false,
        }
    }

    /// Steps back to the previous workout, wrapping to the last one, and
    /// starts it over. Returns the workout stepped onto; none in an empty
    /// sequence.
    pub fn goto_previous(&mut self) -> (workout: Option<&mut Workout>)
        ensures
            match workout {
                Some(workout) => {
                    &&& old(self)@.goto_previous().current() == Some(workout@)
                    &&& final(self)@ == old(self)@.goto_previous().with_current(final(workout)@)
                },
                None => {
                    &&& old(self)@.workouts.items.len() == 0
                    &&& final(self)@ == old(self)@.goto_previous()
                },
            },
    {
        if self.workouts.is_empty() {
            return None;
        }
        match self.workouts.previous_mut() {
            Some(workout) => {
                workout.reset();
                proof {
                    let moved = old(self).workouts@.retreated();
                    lemma_landed(moved.items, moved.position.unwrap() as int, *final(workout));
                }
                Some(workout)
            },
            None => None,
        }
    }

    /// Steps forward as the user asks: on to the following workout, or back to
    /// the first one when the last is current. The workout stepped onto
    /// starts over and is returned; none in an empty sequence.
    pub fn manual_next(&mut self) -> (workout: Option<&mut Workout>)
        ensures
            match workout {
                Some(workout) => {
                    &&& old(self)@.manual_next().current() == Some(workout@)
                    &&& final(self)@ == old(self)@.manual_next().with_current(final(workout)@)
                },
                None => {
                    &&& old(self)@.workouts.items.len() == 0
                    &&& final(self)@ == old(self)@.manual_next()
                },
            },
    {
        if self.workouts.is_empty() {
        } else if !self.workouts.last() {
            let ghost before = self.workouts@;
            let _ = self.workouts.next_mut();
            proof {
                if before.advanced().position is Some {
                    let position = before.advanced().position.unwrap() as int;
                    assert(before.advanced().items.update(position, before.items[position])
                        =~= before.items);
                }
            }
            self.reset_workout();
        } else {
            let ghost before = self.workouts@;
            let _ = self.workouts.set_index(0);
            proof {
                assert(before.moved_to(0).items.update(0, before.items[0]) =~= before.items);
            }
            self.reset_workout();
        }
        self.get_mut()
    }

    /// Steps forward as the timer does when a workout expires: on to the
    /// following workout, which starts over and is returned, or off the end
    /// after the last one, which leaves no workout current and returns none.
    pub fn auto_next(&mut self) -> (workout: Option<&mut Workout>)
        ensures
            match workout {
                Some(workout) => {
                    &&& old(self)@.auto_next().current() == Some(workout@)
                    &&& final(self)@ == old(self)@.auto_next().with_current(final(workout)@)
                },
                None => {
                    &&& old(self)@.auto_next().current() is None
                    &&& final(self)@ == old(self)@.auto_next()
                },
            },
    {
        if self.workouts.is_empty() {
            return None;
        }
        match self.workouts.next_mut() {
            Some(workout) => {
                workout.reset();
                proof {
                    let moved = old(self).workouts@.advanced();
                    lemma_landed(moved.items, moved.position.unwrap() as int, *final(workout));
                }
                Some(workout)
            },
            None => None,
        }
    }

    /// Forgets the current workout and starts every workout over.
    pub fn reset(&mut self)
        ensures
            final(self)@ == old(self)@.reset(),
    {
        self.workouts.reset();
        let ghost before = self.workouts@;
        let restart = |workout: Workout| -> (fresh: Workout)
            ensures
                fresh@ == workout@.reset(),
            {
                let mut workout = workout;
                workout.reset();
                workout
            };
        self.workouts.apply(restart);
        proof {
            assert(self.workouts@.items.map_values(|workout: Workout| workout@)
                =~= before.items.map_values(|workout: Workout| workout@).map_values(
                |workout: WorkoutView| workout.reset(),
            ));
        }
    }

    /// Makes the workout at `index` current and starts it over; with no such
    /// workout, none is current afterwards.
    pub fn set_index(&mut self, index: usize) -> (workout: Option<&mut Workout>)
        ensures
            match workout {
                Some(workout) => {
                    &&& old(self)@.start_at(index as nat).current() == Some(workout@)
                    &&& final(self)@ == old(self)@.start_at(index as nat).with_current(
                        final(workout)@,
                    )
                },
                None => {
                    &&& index >= old(self)@.workouts.items.len()
                    &&& final(self)@ == old(self)@.start_at(index as nat)
                },
            },
    {
        match self.workouts.set_index(index) {
            Some(workout) => {
                workout.reset();
                proof {
                    let moved = old(self).workouts@.moved_to(index as nat);
                    lemma_landed(moved.items, index as int, *final(workout));
                }
                Some(workout)
            },
            None => None,
        }
    }

    /// The slugs of the given sequences, in order.
    pub fn slugs(catalog: &[Sequence]) -> (slugs: Vec<String>)
        ensures
            slugs@.len() == catalog@.len(),
            forall|i: int|
                0 <= i < catalog@.len() ==> (#[trigger] slugs@[i])@ == slug_of(catalog@[i]@.name),
    {
        let mut slugs: Vec<String> = Vec::new();
        let mut i: usize = 0;
        while i < catalog.len()
            invariant
                i <= catalog@.len(),
                slugs@.len() == i,
                forall|j: int| 0 <= j < i ==> (#[trigger] slugs@[j])@ == slug_of(catalog@[j]@.name),
            decreases catalog@.len() - i,
        {
            slugs.push(catalog[i].slug());
            i += 1;
        }
        slugs
    }

    /// The first of the given sequences whose slug is `slug`.
    pub fn find_by_slug<'a>(catalog: &'a [Sequence], slug: &str) -> (found: Option<&'a Sequence>)
        ensures
            match found {
                Some(sequence) => exists|position: int|
                    {
                        &&& 0 <= position < catalog@.len()
                        &&& #[trigger] catalog@[position] == *sequence
                        &&& slug_of(sequence@.name) == slug@
                        &&& forall|earlier: int|
                            0 <= earlier < position ==> slug_of(
                                (#[trigger] catalog@[earlier])@.name,
                            ) != slug@
                    },
                None => forall|any: int|
                    0 <= any < catalog@.len() ==> slug_of((#[trigger] catalog@[any])@.name)
                        != slug@,
            },
    {
        let slugs = Self::slugs(catalog);
        match position_of(&slugs, slug) {
            Some(position) => {
                proof {
                    assert(crate::slugs::texts_of(slugs@)[position as int] == slug@);
                    assert forall|earlier: int| 0 <= earlier < position implies slug_of(
                        (#[trigger] catalog@[earlier])@.name,
                    ) != slug@ by {
                        assert(crate::slugs::texts_of(slugs@)[earlier] != slug@);
                    }
                }
                Some(&catalog[position])
            },
            None => {
                proof {
                    assert forall|any: int| 0 <= any < catalog@.len() implies slug_of(
                        (#[trigger] catalog@[any])@.name,
                    ) != slug@ by {
                        assert(crate::slugs::texts_of(slugs@)[any] != slug@);
                    }
                }
                None
            },
        }
    }
}

impl PartialEq for Sequence {
    fn eq(&self, other: &Self) -> (equal: bool) {
        let same_rest = match (self.rest, other.rest) {
            (Some(mine), Some(theirs)) => mine == theirs,
            (None, None) => true,
            _ => false,
        };
        let same_difficulty = match (self.difficulty, other.difficulty) {
            (Some(mine), Some(theirs)) => mine == theirs,
            (None, None) => true,
            _ => false,
        };
        let same_icon = match (self.icon, other.icon) {
            (Some(mine), Some(theirs)) => mine == theirs,
            (None, None) => true,
            _ => false,
        };
        let same_workouts = self.workouts == other.workouts;
        proof {
            let mine = self.workouts@.items;
            let theirs = other.workouts@.items;
            if same_workouts {
                assert(views(mine) =~= views(theirs)) by {
                    assert forall|i: int| 0 <= i < mine.len() implies views(mine)[i] == views(
                        theirs,
                    )[i] by {
                        assert(mine[i].eq_spec(&theirs[i]));
                    }
                }
            } else if self.workouts@.position == other.workouts@.position && views(mine) == views(
                theirs,
            ) {
                assert(mine.len() == views(mine).len());
                assert(theirs.len() == views(theirs).len());
                assert forall|i: int| 0 <= i < mine.len() implies (#[trigger] mine[i]).eq_spec(
                    &theirs[i],
                ) by {
                    assert(views(mine)[i] == views(theirs)[i]);
                }
            }
        }
        self.name == other.name && same_text(&self.description, &other.description)
            && same_workouts && self.sound == other.sound && same_rest && self.shuffleable
            == other.shuffleable && same_difficulty && same_icon
    }
}

impl Eq for Sequence {

}

impl vstd::std_specs::cmp::PartialEqSpecImpl for Sequence {
    open spec fn obeys_eq_spec() -> bool {
        true
    }

    open spec fn eq_spec(&self, other: &Self) -> bool {
        self@ == other@
    }
}

impl Default for Sequence {
    fn default() -> (sequence: Self)
        ensures
            sequence@ == (SequenceView {
                name: Seq::empty(),
                description: None,
                workouts: CursorView::start(Seq::empty()),
                sound: Sound::Silent,
                rest: None,
                shuffleable: false,
                difficulty: None,
                icon: None,
            }),
    {
        let workouts: Vec<Workout> = Vec::new();
        assert(views(workouts@) =~= Seq::<WorkoutView>::empty());
        Sequence::new(String::new(), None, workouts, Sound::Silent, None, false, None, None)
    }
}

impl Clone for Sequence {
    fn clone(&self) -> (copy: Self)
        ensures
            copy@ == self@,
    {
        let workouts = self.workouts.clone();
        proof {
            lemma_cloned_views(self.workouts@.items, workouts@.items);
        }
        Sequence {
            name: self.name.clone(),
            description: clone_text(&self.description),
            workouts,
            sound: self.sound,
            rest: self.rest,
            shuffleable: self.shuffleable,
            difficulty: self.difficulty,
            icon: self.icon,
        }
    }
}

} // verus!
