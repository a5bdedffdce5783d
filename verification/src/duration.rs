//! Whole-second time spans that saturate instead of overflowing.

use vstd::prelude::*;
use vstd::string::StringExecFns;

verus! {

/// One more second, unless the count already sits at the largest representable value.
pub open spec fn saturating_succ(secs: nat) -> nat {
    if secs < u64::MAX {
        secs + 1
    } else {
        secs
    }
}

/// One second less, never below zero.
pub open spec fn saturating_pred(secs: nat) -> nat {
    if secs > 0 {
        (secs - 1) as nat
    } else {
        0
    }
}

/// The character that writes a single decimal digit.
pub open spec fn digit_char(d: nat) -> char {
    if d == 0 {
        '0'
    } else if d == 1 {
        '1'
    } else if d == 2 {
        '2'
    } else if d == 3 {
        '3'
    } else if d == 4 {
        '4'
    } else if d == 5 {
        '5'
    } else if d == 6 {
        '6'
    } else if d == 7 {
        '7'
    } else if d == 8 {
        '8'
    } else {
        '9'
    }
}

/// The decimal numeral of `n`, most significant digit first, without padding.
pub open spec fn decimal(n: nat) -> Seq<char>
    decreases n,
{
    if n < 10 {
        seq![digit_char(n)]
    } else {
        decimal(n / 10).push(digit_char(n % 10))
    }
}

/// A number below one hundred written with exactly two digits.
pub open spec fn two_digits(n: nat) -> Seq<char> {
    seq![digit_char(n / 10), digit_char(n % 10)]
}

/// How a span of `secs` seconds is shown: `"45s"` up to one minute, `"2:05"` beyond.
pub open spec fn duration_text(secs: nat) -> Seq<char> {
    if secs <= 60 {
        decimal(secs).push('s')
    } else {
        decimal(secs / 60).push(':') + two_digits(secs % 60)
    }
}

/// Appends one decimal digit to `out`.
fn push_digit(out: &mut String, d: u64)
    requires
        d < 10,
    ensures
        final(out)@ == old(out)@.push(digit_char(d as nat)),
{
    proof {
        reveal_strlit("0");
        reveal_strlit("1");
        reveal_strlit("2");
        reveal_strlit("3");
        reveal_strlit("4");
        reveal_strlit("5");
        reveal_strlit("6");
        reveal_strlit("7");
        reveal_strlit("8");
        reveal_strlit("9");
    }
    let text = if d == 0 {
        "0"
    } else if d == 1 {
        "1"
    } else if d == 2 {
        "2"
    } else if d == 3 {
        "3"
    } else if d == 4 {
        "4"
    } else if d == 5 {
        "5"
    } else if d == 6 {
        "6"
    } else if d == 7 {
        "7"
    } else if d == 8 {
        "8"
    } else {
        "9"
    };
    assert(text@ =~= seq![digit_char(d as nat)]);
    out.append(text);
    assert(out@ =~= old(out)@.push(digit_char(d as nat)));
}

/// Appends the decimal numeral of `n` to `out`.
pub fn push_decimal(out: &mut String, n: u64)
    ensures
        final(out)@ == old(out)@ + decimal(n as nat),
    decreases n,
{
    if n >= 10 {
        push_decimal(out, n / 10);
        push_digit(out, n % 10);
        assert(out@ =~= old(out)@ + decimal(n as nat));
    } else {
        push_digit(out, n);
        assert(out@ =~= old(out)@ + decimal(n as nat));
    }
}

/// A count of whole seconds.
#[derive(Clone, Copy, Debug, Hash)]
pub struct Duration {
    secs: u64,
}

impl View for Duration {
    type V = nat;

    closed spec fn view(&self) -> nat {
        self.secs as nat
    }
}

impl Duration {
    /// The duration of `seconds` seconds, for use in specifications.
    pub closed spec fn of_secs(seconds: u64) -> Self {
        Duration { secs: seconds }
    }

    #[verifier::when_used_as_spec(of_secs)]
    pub fn from_secs(seconds: u64) -> (d: Self)
        ensures
            d@ == seconds,
            d == Self::of_secs(seconds),
    {
        Duration { secs: seconds }
    }

    pub fn as_secs(&self) -> (seconds: u64)
        ensures
            seconds == self@,
    {
        self.secs
    }

    /// Adds one second; at the largest representable value nothing changes.
    pub fn increment(&mut self)
        ensures
            final(self)@ == saturating_succ(old(self)@),
    {
        if let Some(secs) = self.secs.checked_add(1) {
            self.secs = secs;
        }
    }

    /// Takes one second away and reports whether there was one to take.
    pub fn decrement(&mut self) -> (success: bool)
        ensures
            success == (old(self)@ > 0),
            final(self)@ == saturating_pred(old(self)@),
    {
        match self.secs.checked_sub(1) {
            None => {
                self.secs = 0;
                false
            },
            Some(left) => {
                self.secs = left;
                true
            },
        }
    }

    /// Minutes and zero-padded seconds, as on a clock face: `"1:05"`.
    pub fn clock(&self) -> (text: String)
        ensures
            text@ == decimal(self@ / 60).push(':') + two_digits(self@ % 60),
    {
        let mut text = String::new();
        push_decimal(&mut text, self.secs / 60);
        proof {
            reveal_strlit(":");
        }
        text.append(":");
        let rest = self.secs % 60;
        push_digit(&mut text, rest / 10);
        push_digit(&mut text, rest % 10);
        assert(text@ =~= decimal(self@ / 60).push(':') + two_digits(self@ % 60));
        text
    }
}

impl PartialEq for Duration {
    fn eq(&self, other: &Self) -> (equal: bool) {
        self.secs == other.secs
    }
}

impl Eq for Duration {

}

impl vstd::std_specs::cmp::PartialEqSpecImpl for Duration {
    open spec fn obeys_eq_spec() -> bool {
        true
    }

    open spec fn eq_spec(&self, other: &Self) -> bool {
        self@ == other@
    }
}

impl Default for Duration {
    fn default() -> (d: Self)
        ensures
            d@ == 0,
    {
        Duration { secs: 0 }
    }
}

/// Second-by-second counting and display for a time span.
pub trait DurationExt {
    /// The number of whole seconds in the span.
    spec fn seconds(&self) -> nat;

    /// Adds one second; at the largest representable value nothing changes.
    fn increment(&mut self)
        ensures
            final(self).seconds() == saturating_succ(old(self).seconds()),
    ;

    /// Takes one second away and reports whether there was one to take.
    fn decrement(&mut self) -> (success: bool)
        ensures
            success == (old(self).seconds() > 0),
            final(self).seconds() == saturating_pred(old(self).seconds()),
    ;

    /// `"45s"` up to one minute, minutes and zero-padded seconds beyond.
    fn to_string(&self) -> (text: String)
        ensures
            text@ == duration_text(self.seconds()),
    ;
}

impl DurationExt for Duration {
    open spec fn seconds(&self) -> nat {
        self@
    }

    fn increment(&mut self) {
        Duration::increment(self)
    }

    fn decrement(&mut self) -> (success: bool) {
        Duration::decrement(self)
    }

    fn to_string(&self) -> (text: String) {
        if self.secs <= 60 {
            let mut text = String::new();
            push_decimal(&mut text, self.secs);
            proof {
                reveal_strlit("s");
            }
            text.append("s");
            assert(text@ =~= duration_text(self@));
            text
        } else {
            let text = self.clock();
            text
        }
    }
}

} // verus!
