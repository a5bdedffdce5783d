//! The timer: one sequence, a preparation countdown, and the step that a
//! periodic tick makes through them.

use crate::duration::{saturating_succ, Duration};
use crate::errors::ErrorKind;
use crate::player::{is_answer_to, Player};
use crate::sequence::{Sequence, SequenceView};
use crate::signal::{SoundSignal, SoundState};
use crate::slugs::slug_of;
use crate::sound::Sound;
use crate::status::Status;
use crate::stopwatch::{Stopwatch, StopwatchView};
use crate::workout::Workout;
use vstd::prelude::*;

verus! {

/// The preparation, in seconds, of a timer that was not told another.
pub const PREPARE: u64 = 15;

/// What the timer shows while no workout is current.
pub const PREPARE_LABEL: &'static str = "Prepare";

/// The milliseconds the host waits between two ticks.
pub const DEFAULT_INTERVAL: u32 = 1000;

/// What one tick finds the timer doing.
pub enum Phase {
    /// A manual step has just been taken: this tick is absorbed.
    Suppressed,
    /// The timer is paused.
    Idle,
    /// No workout is current and the preparation has time left.
    Preparing,
    /// The current workout has time left.
    Playing,
    /// The current workout has expired, or the preparation has.
    Expiring,
}

/// What a tick asks of the host.
#[derive(Clone, Copy, Debug, PartialEq, Eq, Structural)]
pub struct Tick {
    /// Whether the next tick is due at once instead of after a full interval.
    pub again: bool,
    /// The cue that is due, before the mute switch has had its say.
    pub signal: Option<Sound>,
}

/// A timer as plain values.
pub struct TimerView {
    pub status: Status,
    pub sequence: SequenceView,
    pub preparation: StopwatchView,
    /// The seconds the timer has been running in all.
    pub elapsed: nat,
    /// Whether the next tick is to be absorbed.
    pub changed: bool,
    pub sound_signal: SoundState,
}

impl TimerView {
    pub open spec fn well_formed(self) -> bool {
        self.sequence.well_formed()
    }

    /// A paused timer on `sequence` that has not run.
    pub open spec fn fresh(preparation: nat, sequence: SequenceView, sound_signal: SoundState) -> Self {
        TimerView {
            status: Status::Paused,
            sequence,
            preparation: StopwatchView::fresh(preparation),
            elapsed: 0,
            changed: false,
            sound_signal,
        }
    }

    pub open spec fn phase(self) -> Phase {
        if self.changed {
            Phase::Suppressed
        } else if self.status == Status::Paused {
            Phase::Idle
        } else if self.sequence.current() is None && self.preparation.left > 0 {
            Phase::Preparing
        } else if self.sequence.can_decrement() {
            Phase::Playing
        } else {
            Phase::Expiring
        }
    }

    /// The timer after one tick.
    pub open spec fn tick(self) -> Self {
        match self.phase() {
            Phase::Suppressed => TimerView { changed: false, ..self },
            Phase::Idle => self,
            Phase::Preparing => TimerView {
                elapsed: saturating_succ(self.elapsed),
                preparation: self.preparation.decrement(),
                ..self
            },
            Phase::Playing => TimerView {
                elapsed: saturating_succ(self.elapsed),
                preparation: self.preparation.reset(),
                sequence: self.sequence.decrement(),
                ..self
            },
            Phase::Expiring => TimerView {
                elapsed: saturating_succ(self.elapsed),
                preparation: self.preparation.reset(),
                sequence: self.sequence.auto_next(),
                status: if self.sequence.auto_next().current() is Some {
                    self.status
                } else {
                    Status::Paused
                },
                ..self
            },
        }
    }

    /// Whether the tick moved on to a workout, so that the next tick is due at once.
    pub open spec fn tick_again(self) -> bool {
        self.phase() is Expiring && self.sequence.auto_next().current() is Some
    }

    /// The cue that the tick makes due: the early warning during the last
    /// seconds of a countdown that has just gone down, the bell when a
    /// countdown of a sequence with workouts has expired.
    pub open spec fn tick_signal(self) -> Option<Sound> {
        match self.phase() {
            Phase::Preparing => if self.sequence.sound == Sound::Beep
                && self.preparation.decrement().last_seconds() {
                Some(Sound::Beep)
            } else {
                None
            },
            Phase::Playing => if self.sequence.sound == Sound::Beep
                && self.sequence.decrement().last_seconds() {
                Some(Sound::Beep)
            } else {
                None
            },
            Phase::Expiring => if self.sequence.workouts.items.len() > 0 && self.sequence.sound
                == Sound::Bell {
                Some(Sound::Bell)
            } else {
                None
            },
            _ => None,
        }
    }

    /// The status flips. A timer that starts running with no workout current
    /// makes the first workout current and starts it over.
    pub open spec fn toggle(self) -> Self {
        TimerView {
            status: self.status.flipped(),
            sequence: if self.status.flipped() == Status::Running && self.sequence.current() is None {
                self.sequence.start_at(0)
            } else {
                self.sequence
            },
            ..self
        }
    }

    /// The user steps forward; a running timer absorbs its next tick.
    pub open spec fn manual_next(self) -> Self {
        TimerView {
            changed: self.changed || self.status == Status::Running,
            sequence: self.sequence.manual_next(),
            ..self
        }
    }

    /// The user steps back; a running timer absorbs its next tick.
    pub open spec fn manual_previous(self) -> Self {
        TimerView {
            changed: self.changed || self.status == Status::Running,
            sequence: self.sequence.goto_previous(),
            ..self
        }
    }

    /// Back to before the first workout, with the full preparation ahead.
    /// The next tick is absorbed.
    pub open spec fn restart_sequence(self) -> Self {
        TimerView {
            preparation: self.preparation.reset(),
            changed: true,
            sequence: self.sequence.reset(),
            ..self
        }
    }

    /// The current workout and the preparation start over.
    pub open spec fn restart_workout(self) -> Self {
        TimerView {
            preparation: self.preparation.reset(),
            sequence: self.sequence.reset_workout(),
            ..self
        }
    }

    /// Another sequence takes the place of the present one, rewound, with
    /// the full preparation ahead.
    pub open spec fn with_sequence(self, sequence: SequenceView) -> Self {
        TimerView { preparation: self.preparation.reset(), sequence: sequence.reset(), ..self }
    }

    /// What is left of the countdown that is running: the current workout's,
    /// or the preparation's when no workout is current.
    pub open spec fn left(self) -> nat {
        match self.sequence.current() {
            Some(workout) => workout.stopwatch.left,
            None => self.preparation.left,
        }
    }

    /// The name of the current workout, or the preparation label.
    pub open spec fn label(self) -> Seq<char> {
        match self.sequence.current() {
            Some(workout) => workout.item.name,
            None => PREPARE_LABEL@,
        }
    }

    /// A manual step on a running timer and the tick that follows it count
    /// nothing down between them: the tick is absorbed whole. It leaves the
    /// sequence, the preparation and the elapsed time as the step left them,
    /// asks for no cue and no second tick, and only the tick after it counts
    /// again.
    pub proof fn lemma_no_double_decrement(self)
        requires
            self.status == Status::Running,
        ensures
            self.manual_next().tick() == (TimerView { changed: false, ..self.manual_next() }),
            self.manual_previous().tick() == (TimerView {
                changed: false,
                ..self.manual_previous()
            }),
            !self.manual_next().tick_again(),
            !self.manual_previous().tick_again(),
            self.manual_next().tick_signal() is None,
            self.manual_previous().tick_signal() is None,
            !(self.manual_next().tick().phase() is Suppressed),
            !(self.manual_previous().tick().phase() is Suppressed),
    {
    }

    /// While a workout plays under the early-warning cue, a tick makes the
    /// cue due exactly when it leaves one, two or three seconds on the
    /// countdown. Under any other cue such a tick makes nothing due.
    pub proof fn lemma_early_warning(self)
        requires
            self.well_formed(),
            self.phase() is Playing,
        ensures
            self.tick().sequence.current() is Some,
            self.tick().left() == self.left() - 1,
            self.tick_signal() is Some <==> self.sequence.sound == Sound::Beep && 0
                < self.tick().left() < 4,
            self.tick_signal() is Some ==> self.tick_signal() == Some(Sound::Beep),
            !self.tick_again(),
    {
    }

    /// No tick lets a countdown grow or the elapsed time shrink, and a tick
    /// that is absorbed or finds the timer paused counts nothing at all.
    pub proof fn lemma_tick_counts_down(self)
        requires
            self.well_formed(),
        ensures
            self.tick().well_formed(),
            self.tick().elapsed >= self.elapsed,
            self.tick().preparation.duration == self.preparation.duration,
            self.tick().sequence.workouts.items.len() == self.sequence.workouts.items.len(),
            self.phase() is Suppressed || self.phase() is Idle ==> {
                &&& self.tick().sequence == self.sequence
                &&& self.tick().preparation == self.preparation
                &&& self.tick().elapsed == self.elapsed
            },
            self.tick_again() ==> self.tick().status == Status::Running,
            self.phase() is Expiring && !self.tick_again() ==> {
                &&& self.tick().status == Status::Paused
                &&& self.tick().sequence.current() is None
            },
    {
        self.sequence.lemma_walks_keep_well_formed();
    }
}

/// Plays one sequence: counts the preparation down, then each workout in
/// turn, and pauses after the last one.
#[derive(Debug)]
pub struct MobileTimer {
    status: Status,
    sequence: Sequence,
    preparation: Stopwatch,
    elapsed: Duration,
    changed: bool,
    sound_signal: SoundSignal,
}

impl View for MobileTimer {
    type V = TimerView;

    closed spec fn view(&self) -> TimerView {
        TimerView {
            status: self.status,
            sequence: self.sequence@,
            preparation: self.preparation@,
            elapsed: self.elapsed@,
            changed: self.changed,
            sound_signal: self.sound_signal@,
        }
    }
}

impl MobileTimer {
    /// A paused timer on a copy of `sequence`, with the usual preparation.
    #[must_use]
    pub fn from_sequence(sequence: &Sequence, sound_signal: &SoundSignal) -> (timer: Self)
        ensures
            timer@ == TimerView::fresh(PREPARE as nat, sequence@, sound_signal@),
    {
        Self::new(Duration::from_secs(PREPARE), sequence, sound_signal)
    }

    /// A paused timer on a copy of `sequence`.
    #[must_use]
    pub fn new(preparation: Duration, sequence: &Sequence, sound_signal: &SoundSignal) -> (timer:
        Self)
        ensures
            timer@ == TimerView::fresh(preparation@, sequence@, sound_signal@),
    {
        MobileTimer {
            preparation: Stopwatch::new(preparation),
            sequence: sequence.clone(),
            changed: false,
            sound_signal: *sound_signal,
            status: Status::Paused,
            elapsed: Duration::from_secs(0),
        }
    }

    /// The timer that the host's start parameters ask for: a paused timer on
    /// the first sequence of `catalog` whose slug is `slug`, with `prepare`
    /// seconds of preparation (the usual ones for zero) and the mute switch
    /// set as `muted` says. Fails exactly when no sequence has that slug.
    pub fn for_slug(muted: bool, prepare: u64, slug: &str, catalog: &[Sequence]) -> (timer: Result<
        Self,
        ErrorKind,
    >)
        ensures
            match timer {
                Ok(timer) => exists|position: int|
                    {
                        &&& 0 <= position < catalog@.len()
                        &&& slug_of((#[trigger] catalog@[position])@.name) == slug@
                        &&& forall|earlier: int|
                            0 <= earlier < position ==> slug_of(
                                (#[trigger] catalog@[earlier])@.name,
                            ) != slug@
                        &&& timer@ == TimerView::fresh(
                            if prepare == 0 {
                                PREPARE as nat
                            } else {
                                prepare as nat
                            },
                            catalog@[position]@,
                            SoundState::of_muted(muted),
                        )
                    },
                Err(error) => {
                    &&& error is InvalidSequence
                    &&& forall|any: int|
                        0 <= any < catalog@.len() ==> slug_of((#[trigger] catalog@[any])@.name)
                            != slug@
                },
            },
    {
        let prepare = if prepare == 0 {
            PREPARE
        } else {
            prepare
        };
        match Sequence::find_by_slug(catalog, slug) {
            Some(sequence) => Ok(
                Self::new(Duration::from_secs(prepare), sequence, &SoundSignal::from_muted(muted)),
            ),
            None => Err(ErrorKind::InvalidSequence),
        }
    }

    /// What is left of the countdown that is running.
    #[must_use]
    pub fn left(&self) -> (left: &Duration)
        ensures
            left@ == self@.left(),
    {
        if let Some(workout) = self.sequence.get() {
            return workout.stopwatch().left();
        }
        self.preparation.left()
    }

    #[must_use]
    pub fn sequence(&self) -> (sequence: &Sequence)
        ensures
            sequence@ == self@.sequence,
    {
        &self.sequence
    }

    pub fn preparation(&self) -> (preparation: &Stopwatch)
        ensures
            preparation@ == self@.preparation,
    {
        &self.preparation
    }

    /// The seconds the timer has been running in all.
    #[must_use]
    pub fn elapsed(&self) -> (elapsed: &Duration)
        ensures
            elapsed@ == self@.elapsed,
    {
        &self.elapsed
    }

    pub fn sound_signal(&self) -> (sound_signal: &SoundSignal)
        ensures
            sound_signal@ == self@.sound_signal,
    {
        &self.sound_signal
    }

    /// Flips the mute switch.
    pub fn toggle_sound(&mut self)
        ensures
            final(self)@ == (TimerView {
                sound_signal: old(self)@.sound_signal.flipped(),
                ..old(self)@
            }),
    {
        self.sound_signal.toggle();
    }

    /// Plays the sequence's cue whatever the mute switch says, and returns
    /// the device's answer.
    pub fn always_ring<P: Player>(&self, player: &P) -> (answer: Result<(), ErrorKind>)
        ensures
            is_answer_to(player, self@.sequence.sound, answer),
    {
        self.sound_signal.always_ring(self.sequence.sound(), player)
    }

    /// Goes back to before the first workout, with the full preparation
    /// ahead. The status stays; the next tick is absorbed.
    pub fn restart_sequence(&mut self)
        ensures
            final(self)@ == old(self)@.restart_sequence(),
    {
        self.preparation.reset();
        self.changed = true;
        self.sequence.reset();
    }

    /// Starts the current workout and the preparation over. The status stays.
    pub fn restart_workout(&mut self)
        ensures
            final(self)@ == old(self)@.restart_workout(),
    {
        self.preparation.reset();
        self.sequence.reset_workout();
    }

    /// Puts a copy of `sequence` in the place of the present one, rewound
    /// and with the full preparation ahead. The status stays.
    pub fn set_sequence(&mut self, sequence: &Sequence)
        ensures
            final(self)@ == old(self)@.with_sequence(sequence@),
    {
        self.preparation.reset();
        self.sequence = sequence.clone();
        self.sequence.reset();
    }

    /// One step of the timer, without any sound: the state moves on as a
    /// tick moves it, and the cue that is due is handed back for the host to
    /// play.
    pub fn advance(&mut self) -> (tick: Tick)
        ensures
            final(self)@ == old(self)@.tick(),
            tick.again == old(self)@.tick_again(),
            tick.signal == old(self)@.tick_signal(),
    {
        if self.changed {
            self.changed = false;
            return Tick { again: false, signal: None };
        }
        if self.status.paused() {
            return Tick { again: false, signal: None };
        }
        self.elapsed.increment();
        if self.sequence.get().is_none() && self.preparation.decrement() {
            let signal = if self.sequence.sound().is_beep() && self.preparation.last_seconds() {
                Some(Sound::Beep)
            } else {
                None
            };
            return Tick { again: false, signal };
        }
        self.preparation.reset();
        proof {
            if !self.sequence@.can_decrement() {
                self.sequence@.lemma_decrement_expired();
            }
        }
        if self.sequence.decrement() {
            let signal = if self.sequence.sound().is_beep() && self.sequence.last_seconds() {
                Some(Sound::Beep)
            } else {
                None
            };
            return Tick { again: false, signal };
        }
        let signal = if !self.sequence.is_empty() && self.sequence.sound().is_bell() {
            Some(Sound::Bell)
        } else {
            None
        };
        let ghost expired = self.sequence@;
        let moved_on = match self.sequence.auto_next() {
            Some(_) => true,
            None => false,
        };
        proof {
            expired.auto_next().lemma_with_current_same();
        }
        if moved_on {
            return Tick { again: true, signal };
        }
        self.status = Status::Paused;
        Tick { again: false, signal }
    }

    /// One step of the timer: what [`MobileTimer::advance`] does, with the
    /// cue that is due handed to `player` unless the mute switch is off.
    /// Returns whether the next tick is due at once. What the device answers
    /// changes nothing.
    pub fn tick<P: Player>(&mut self, player: &P) -> (again: bool)
        ensures
            final(self)@ == old(self)@.tick(),
            again == old(self)@.tick_again(),
    {
        let tick = self.advance();
        if let Some(sound) = tick.signal {
            let _ = self.sound_signal.ring(&sound, player);
        }
        tick.again
    }

    /// The user's step forward, wrapping to the first workout after the last
    /// one. A running timer absorbs its next tick.
    pub fn manual_next(&mut self)
        ensures
            final(self)@ == old(self)@.manual_next(),
    {
        if self.running() {
            self.changed = true;
        }
        let ghost before = self.sequence@;
        let _ = self.sequence.manual_next();
        proof {
            before.manual_next().lemma_with_current_same();
        }
    }

    /// The user's step back, wrapping to the last workout. A running timer
    /// absorbs its next tick.
    pub fn manual_previous(&mut self)
        ensures
            final(self)@ == old(self)@.manual_previous(),
    {
        if self.running() {
            self.changed = true;
        }
        let ghost before = self.sequence@;
        let _ = self.sequence.goto_previous();
        proof {
            before.goto_previous().lemma_with_current_same();
        }
    }

    /// The name of the current workout, or the preparation label.
    #[must_use]
    pub fn label(&self) -> (label: &str)
        ensures
            label@ == self@.label(),
    {
        match self.sequence.get() {
            Some(workout) => workout.item().name(),
            None => PREPARE_LABEL,
        }
    }

    #[must_use]
    pub fn current_workout(&self) -> (workout: Option<&Workout>)
        ensures
            match workout {
                Some(workout) => self@.sequence.current() == Some(workout@),
                None => self@.sequence.current() is None,
            },
    {
        self.sequence.get()
    }

    #[must_use]
    pub fn status(&self) -> (status: &Status)
        ensures
            *status == self@.status,
    {
        &self.status
    }

    /// Shuffles the sequence; see [`Sequence::shuffle`].
    pub fn shuffle(&mut self)
        ensures
            old(self)@.sequence.shuffled_into(final(self)@.sequence),
            final(self)@ == (TimerView { sequence: final(self)@.sequence, ..old(self)@ }),
    {
        self.sequence.shuffle();
    }

    /// Pauses a running timer and starts a paused one. A timer that starts
    /// with no workout current begins at the first workout, started over.
    pub fn toggle(&mut self)
        ensures
            final(self)@ == old(self)@.toggle(),
    {
        self.status = self.next_status();
        if self.running() && self.sequence.get().is_none() {
            let ghost before = self.sequence@;
            let _ = self.sequence.set_index(0);
            proof {
                before.start_at(0).lemma_with_current_same();
            }
        }
    }

    #[must_use]
    pub fn next_status(&self) -> (next: Status)
        ensures
            next == self@.status.flipped(),
    {
        self.status.next()
    }

    #[must_use]
    pub fn paused(&self) -> (paused: bool)
        ensures
            paused == (self@.status == Status::Paused),
    {
        self.status.paused()
    }

    #[must_use]
    pub fn running(&self) -> (running: bool)
        ensures
            running == (self@.status == Status::Running),
    {
        self.status.running()
    }
}

} // verus!
