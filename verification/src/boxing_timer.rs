//! A plain round timer: one countdown that is set anew for each workout of a
//! sequence, and a bell whenever a countdown expires.

use crate::duration::Duration;
use crate::sequence::{Sequence, SequenceView};
use crate::status::Status;
use crate::stopwatch::{Stopwatch, StopwatchView};
use vstd::prelude::*;

verus! {

/// The milliseconds the host waits between two ticks.
pub const DEFAULT_INTERVAL: u64 = 1000;

/// A round timer as plain values.
pub struct BoxingView {
    pub status: Status,
    /// What is left of the current workout.
    pub stopwatch: StopwatchView,
    /// The position of the current workout in the sequence.
    pub current_item: Option<nat>,
    pub sequence: SequenceView,
}

impl BoxingView {
    /// The current position, if any, points at a workout.
    pub open spec fn well_formed(self) -> bool {
        match self.current_item {
            Some(current) => current < self.sequence.workouts.items.len(),
            None => true,
        }
    }

    /// A paused timer on `sequence` with no workout current.
    pub open spec fn fresh(sequence: SequenceView) -> Self {
        BoxingView {
            status: Status::Paused,
            stopwatch: StopwatchView::fresh(0),
            current_item: None,
            sequence,
        }
    }

    /// The workout at `position` becomes current, with its full span ahead.
    pub open spec fn at(self, position: nat) -> Self {
        BoxingView {
            current_item: Some(position),
            stopwatch: StopwatchView::fresh(
                self.sequence.workouts.items[position as int].stopwatch.duration,
            ),
            ..self
        }
    }

    /// Whether the tick finds a running countdown that has expired.
    pub open spec fn expiring(self) -> bool {
        self.current_item is Some && self.status == Status::Running && self.stopwatch.left == 0
    }

    /// The timer after one tick: nothing happens without a current workout
    /// or while paused; a countdown with time left goes down by a second; an
    /// expired one gives way to the following workout, or, after the last
    /// one, to a pause with no workout current.
    pub open spec fn tick(self) -> Self {
        match self.current_item {
            Some(current) if self.status == Status::Running => if self.stopwatch.left > 0 {
                BoxingView { stopwatch: self.stopwatch.decrement(), ..self }
            } else if current + 1 == self.sequence.workouts.items.len() {
                BoxingView { status: Status::Paused, current_item: None, ..self }
            } else {
                self.at(current + 1)
            },
            _ => self,
        }
    }

    /// One workout back, stopping at the first; onto the first workout when none is current.
    pub open spec fn goto_previous(self) -> Self {
        match self.current_item {
            Some(current) => self.at(
                if current > 0 {
                    (current - 1) as nat
                } else {
                    0
                },
            ),
            None => if self.sequence.workouts.items.len() > 0 {
                self.at(0)
            } else {
                self
            },
        }
    }

    /// One workout on, stopping at the last; onto the first workout when none is current.
    pub open spec fn goto_next(self) -> Self {
        match self.current_item {
            Some(current) => if current + 1 < self.sequence.workouts.items.len() {
                self.at(current + 1)
            } else {
                self
            },
            None => if self.sequence.workouts.items.len() > 0 {
                self.at(0)
            } else {
                self
            },
        }
    }

    /// Back to the first workout, if there is one.
    pub open spec fn reset_beginning(self) -> Self {
        if self.sequence.workouts.items.len() > 0 {
            self.at(0)
        } else {
            self
        }
    }

    /// The current workout gets its full span back.
    pub open spec fn reset_current(self) -> Self {
        match self.current_item {
            Some(current) => self.at(current),
            None => self,
        }
    }

    /// The status flips. A timer that starts running with no workout current
    /// begins at the first workout.
    pub open spec fn toggle(self) -> Self {
        let flipped = BoxingView { status: self.status.flipped(), ..self };
        if flipped.status == Status::Running && self.current_item is None
            && self.sequence.workouts.items.len() > 0 {
            flipped.at(0)
        } else {
            flipped
        }
    }

    /// Every operation keeps the current position on a workout, and none touches the sequence.
    pub proof fn lemma_operations_keep_well_formed(self)
        requires
            self.well_formed(),
        ensures
            self.tick().well_formed(),
            self.goto_previous().well_formed(),
            self.goto_next().well_formed(),
            self.reset_beginning().well_formed(),
            self.reset_current().well_formed(),
            self.toggle().well_formed(),
            self.tick().sequence == self.sequence,
            self.goto_previous().sequence == self.sequence,
            self.goto_next().sequence == self.sequence,
            self.toggle().sequence == self.sequence,
    {
    }
}

/// Counts one workout of a sequence down after the other and rings between them.
#[derive(Debug)]
pub struct BoxingTimer {
    status: Status,
    stopwatch: Stopwatch,
    current_item: Option<usize>,
    sequence: Sequence,
}

impl View for BoxingTimer {
    type V = BoxingView;

    closed spec fn view(&self) -> BoxingView {
        BoxingView {
            status: self.status,
            stopwatch: self.stopwatch@,
            current_item: match self.current_item {
                Some(current) => Some(current as nat),
                None => None,
            },
            sequence: self.sequence@,
        }
    }
}

impl BoxingTimer {
    #[verifier::type_invariant]
    closed spec fn current_is_valid(self) -> bool {
        self@.well_formed()
    }

    /// A paused timer on `sequence`, with no workout current.
    pub fn new(sequence: Sequence) -> (timer: Self)
        ensures
            timer@ == BoxingView::fresh(sequence@),
    {
        BoxingTimer {
            status: Status::Paused,
            stopwatch: Stopwatch::new(Duration::from_secs(0)),
            current_item: None,
            sequence,
        }
    }

    /// The position of the current workout. It always points at a workout.
    pub fn current_item(&self) -> (current: Option<usize>)
        ensures
            self@.well_formed(),
            match current {
                Some(current) => self@.current_item == Some(current as nat),
                None => self@.current_item is None,
            },
    {
        proof {
            use_type_invariant(self);
        }
        self.current_item
    }

    pub fn sequence(&self) -> (sequence: &Sequence)
        ensures
            sequence@ == self@.sequence,
    {
        &self.sequence
    }

    pub fn stopwatch(&self) -> (stopwatch: Stopwatch)
        ensures
            stopwatch@ == self@.stopwatch,
    {
        self.stopwatch
    }

    pub fn status(&self) -> (status: &Status)
        ensures
            *status == self@.status,
    {
        &self.status
    }

    pub fn next_status(&self) -> (next: Status)
        ensures
            next == self@.status.flipped(),
    {
        self.status.next()
    }

    /// Makes the workout at `position` current and sets the countdown to its span.
    fn set(&mut self, position: usize)
        requires
            position < old(self)@.sequence.workouts.items.len(),
        ensures
            final(self)@ == old(self)@.at(position as nat),
    {
        proof {
            use_type_invariant(&*self);
        }
        let duration = *self.sequence.workouts()[position].stopwatch().duration();
        self.current_item = Some(position);
        self.stopwatch = Stopwatch::new(duration);
    }

    /// Goes back to the first workout, if there is one.
    pub fn reset_beginning(&mut self)
        ensures
            final(self)@ == old(self)@.reset_beginning(),
    {
        if !self.sequence.is_empty() {
            self.set(0);
        }
    }

    /// Gives the current workout its full span back.
    pub fn reset_current(&mut self)
        ensures
            final(self)@ == old(self)@.reset_current(),
    {
        proof {
            use_type_invariant(&*self);
        }
        if let Some(current_item) = self.current_item {
            self.set(current_item);
        }
    }

    /// One step of the timer. Returns whether the bell is due: it is
    /// whenever a running countdown is found expired.
    pub fn tick(&mut self) -> (ring: bool)
        ensures
            final(self)@ == old(self)@.tick(),
            ring == old(self)@.expiring(),
    {
        proof {
            use_type_invariant(&*self);
        }
        let Some(current_item) = self.current_item else {
            return false;
        };
        if self.status.paused() {
            return false;
        }
        let mut stopwatch = self.stopwatch;
        let counted = stopwatch.decrement();
        self.stopwatch = stopwatch;
        if counted {
            return false;
        }
        if current_item == self.sequence.len() - 1 {
            self.status = Status::Paused;
            self.current_item = None;
            return true;
        }
        self.set(current_item + 1);
        true
    }

    /// Steps one workout back, stopping at the first one; onto the first
    /// workout when none is current.
    pub fn goto_previous(&mut self)
        ensures
            final(self)@ == old(self)@.goto_previous(),
    {
        proof {
            use_type_invariant(&*self);
        }
        if let Some(current_item) = self.current_item {
            let next_item = if current_item > 0 {
                current_item - 1
            } else {
                0
            };
            self.set(next_item);
        } else if !self.sequence.is_empty() {
            self.set(0);
        }
    }

    /// Steps one workout on, stopping at the last one; onto the first
    /// workout when none is current.
    pub fn goto_next(&mut self)
        ensures
            final(self)@ == old(self)@.goto_next(),
    {
        proof {
            use_type_invariant(&*self);
        }
        if let Some(current_item) = self.current_item {
            if current_item < self.sequence.len() - 1 {
                self.set(current_item + 1);
            }
        } else if !self.sequence.is_empty() {
            self.set(0);
        }
    }

    /// Pauses a running timer and starts a paused one. A timer that starts
    /// with no workout current begins at the first workout.
    pub fn toggle(&mut self)
        ensures
            final(self)@ == old(self)@.toggle(),
    {
        proof {
            use_type_invariant(&*self);
        }
        self.status = self.status.next();
        if self.status.running() && self.current_item.is_none() && !self.sequence.is_empty() {
            self.set(0);
        }
    }
}

} // verus!
