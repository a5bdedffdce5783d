//! A countdown over whole seconds that also counts the time it has run.

use crate::duration::{duration_text, saturating_succ, Duration, DurationExt};
use vstd::prelude::*;
use vstd::string::StringExecFns;

verus! {

/// What a stopwatch holds, in seconds.
pub struct StopwatchView {
    /// The span the countdown starts from.
    pub duration: nat,
    /// What is left of the countdown.
    pub left: nat,
    /// The seconds counted down since the stopwatch was made.
    pub elapsed: nat,
}

impl StopwatchView {
    /// A stopwatch that has not run yet.
    pub open spec fn fresh(duration: nat) -> Self {
        StopwatchView { duration, left: duration, elapsed: 0 }
    }

    /// The countdown is back at its full span; the elapsed time is kept.
    pub open spec fn reset(self) -> Self {
        StopwatchView { left: self.duration, ..self }
    }

    /// One second added to what is left, saturating.
    pub open spec fn increment(self) -> Self {
        StopwatchView { left: saturating_succ(self.left), ..self }
    }

    /// One second counted down, or nothing at all once the countdown has expired.
    pub open spec fn decrement(self) -> Self {
        if self.left > 0 {
            StopwatchView {
                left: (self.left - 1) as nat,
                elapsed: saturating_succ(self.elapsed),
                ..self
            }
        } else {
            self
        }
    }

    /// `n` seconds counted down one after the other.
    pub open spec fn decrement_times(self, n: nat) -> Self
        decreases n,
    {
        if n == 0 {
            self
        } else {
            self.decrement().decrement_times((n - 1) as nat)
        }
    }

    /// The countdown is about to expire: one, two or three seconds are left.
    pub open spec fn last_seconds(self) -> bool {
        0 < self.left < 4
    }

    /// The countdown has not been pushed beyond its span.
    pub open spec fn within_span(self) -> bool {
        self.left <= self.duration
    }

    /// Counting down keeps the countdown within its span, never lets the elapsed
    /// time shrink, and stops for good at zero: after `n` seconds, `left` has
    /// dropped by `n` or reached zero, and from zero nothing changes any more.
    pub proof fn lemma_countdown(self, n: nat)
        ensures
            self.decrement_times(n).duration == self.duration,
            self.decrement_times(n).left == if n <= self.left {
                self.left - n
            } else {
                0
            },
            self.decrement_times(n).elapsed >= self.elapsed,
            self.within_span() ==> self.decrement_times(n).within_span(),
            self.left == 0 ==> self.decrement_times(n) == self,
        decreases n,
    {
        if n > 0 {
            self.decrement().lemma_countdown((n - 1) as nat);
        }
    }

    /// Only a reset brings an expired countdown back, and it brings it back in full.
    pub proof fn lemma_reset_rearms(self)
        ensures
            self.reset().left == self.duration,
            self.reset().within_span(),
            self.duration > 0 ==> self.reset().decrement() != self.reset(),
    {
    }
}

/// A countdown from a fixed span, one second at a time.
#[derive(Clone, Copy, Debug, Hash)]
pub struct Stopwatch {
    duration: Duration,
    left: Duration,
    elapsed: Duration,
}

impl View for Stopwatch {
    type V = StopwatchView;

    closed spec fn view(&self) -> StopwatchView {
        StopwatchView { duration: self.duration@, left: self.left@, elapsed: self.elapsed@ }
    }
}

impl Stopwatch {
    /// A stopwatch about to count down `duration`.
    pub fn new(duration: Duration) -> (stopwatch: Self)
        ensures
            stopwatch@ == StopwatchView::fresh(duration@),
    {
        Stopwatch { duration, left: duration, elapsed: Duration::from_secs(0) }
    }

    /// Starts the countdown over from its full span.
    pub fn reset(&mut self) -> (same: &mut Self)
        ensures
            same@ == old(self)@.reset(),
            final(self)@ == final(same)@,
    {
        self.left = self.duration;
        self
    }

    /// Adds one second to what is left; at the largest representable value nothing changes.
    pub fn increment(&mut self)
        ensures
            final(self)@ == old(self)@.increment(),
    {
        self.left.increment();
    }

    /// Counts one second down. Returns whether there was a second left to count;
    /// an expired stopwatch is left untouched.
    pub fn decrement(&mut self) -> (success: bool)
        ensures
            success == (old(self)@.left > 0),
            final(self)@ == old(self)@.decrement(),
    {
        let success = self.left.decrement();
        if success {
            self.elapsed.increment();
        }
        success
    }

    /// Whether one, two or three seconds are left.
    pub fn last_seconds(&self) -> (soon: bool)
        ensures
            soon == self@.last_seconds(),
    {
        let left = self.left.as_secs();
        0 < left && left < 4
    }

    pub fn duration(&self) -> (duration: &Duration)
        ensures
            duration@ == self@.duration,
    {
        &self.duration
    }

    pub fn left(&self) -> (left: &Duration)
        ensures
            left@ == self@.left,
    {
        &self.left
    }

    pub fn elapsed(&self) -> (elapsed: &Duration)
        ensures
            elapsed@ == self@.elapsed,
    {
        &self.elapsed
    }

    /// What is left and the full span, as in `"45s / 1:30"`.
    pub fn to_string(&self) -> (text: String)
        ensures
            text@ == duration_text(self@.left) + " / "@ + duration_text(self@.duration),
    {
        let mut text = DurationExt::to_string(&self.left);
        text.append(" / ");
        let span = DurationExt::to_string(&self.duration);
        text.append(span.as_str());
        text
    }
}

impl PartialEq for Stopwatch {
    fn eq(&self, other: &Self) -> (equal: bool) {
        self.duration == other.duration && self.left == other.left && self.elapsed == other.elapsed
    }
}

impl Eq for Stopwatch {

}

impl vstd::std_specs::cmp::PartialEqSpecImpl for Stopwatch {
    open spec fn obeys_eq_spec() -> bool {
        true
    }

    open spec fn eq_spec(&self, other: &Self) -> bool {
        self@ == other@
    }
}

impl Default for Stopwatch {
    fn default() -> (stopwatch: Self)
        ensures
            stopwatch@ == StopwatchView::fresh(0),
    {
        Stopwatch::new(Duration::from_secs(0))
    }
}

impl From<Duration> for Stopwatch {
    fn from(duration: Duration) -> (stopwatch: Self)
        ensures
            stopwatch@ == StopwatchView::fresh(duration@),
    {
        Stopwatch { duration, left: duration, elapsed: Duration::from_secs(0) }
    }
}

impl vstd::std_specs::convert::FromSpecImpl<Duration> for Stopwatch {
    open spec fn obeys_from_spec() -> bool {
        true
    }

    closed spec fn from_spec(duration: Duration) -> Self {
        Stopwatch { duration, left: duration, elapsed: Duration::of_secs(0) }
    }
}

} // verus!
