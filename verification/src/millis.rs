use vstd::prelude::*;
use vstd::string::StringExecFns;
use crate::text::{decimal, decimal_string, digit_char, digit_str};

verus! {

/// A stretch of time, or a point on a clock, counted in whole microseconds.
/// Records show it in milliseconds with three decimals.
#[derive(Clone, Copy, Debug, PartialEq, Eq, Structural)]
pub struct Millis {
    pub micros: u64,
}

/// How a count of microseconds is written in milliseconds: the whole
/// milliseconds in decimal, a point, and the three digits of what is left.
pub open spec fn millis_text(micros: nat) -> Seq<char> {
    let rest = micros % 1000;
    decimal(micros / 1000) + seq!['.'] + seq![digit_char(rest / 100)] + seq![
        digit_char((rest / 10) % 10),
    ] + seq![digit_char(rest % 10)]
}

/// The count of microseconds that a reading of the clock stands for: the
/// reading itself, or the largest count where it would not fit.
pub open spec fn clamp_micros(reading: u128) -> u64 {
    if reading > u64::MAX {
        u64::MAX
    } else {
        reading as u64
    }
}

impl Millis {
    pub fn from_micros(micros: u64) -> (r: Millis)
        ensures
            r.micros == micros,
    {
        Millis { micros }
    }

    /// A reading of the clock in microseconds, capped at what a `Millis` holds.
    pub fn from_reading(reading: u128) -> (r: Millis)
        ensures
            r.micros == clamp_micros(reading),
    {
        if reading > u64::MAX as u128 {
            Millis { micros: u64::MAX }
        } else {
            Millis { micros: reading as u64 }
        }
    }

    pub fn as_micros(&self) -> (r: u64)
        ensures
            r == self.micros,
    {
        self.micros
    }

    /// The whole milliseconds, what is left dropped.
    pub fn whole_millis(&self) -> (r: u64)
        ensures
            r == self.micros / 1000,
    {
        self.micros / 1000
    }

    /// Writes the value in milliseconds, as `millis_text` lays it out.
    pub fn to_decimal(&self) -> (s: String)
        ensures
            s@ == millis_text(self.micros as nat),
    {
        proof {
            reveal_strlit(".");
        }
        let rest: u64 = self.micros % 1000;
        let mut s = decimal_string(self.micros / 1000);
        s.append(".");
        assert("."@ =~= seq!['.']);
        s.append(digit_str(rest / 100));
        s.append(digit_str((rest / 10) % 10));
        s.append(digit_str(rest % 10));
        s
    }
}

} // verus!
