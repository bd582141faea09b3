//! A local wall-clock instant, modelled as a calendar day index together with
//! the number of seconds elapsed since that day's midnight.

use vstd::prelude::*;

verus! {

/// Seconds in one calendar day.
pub const SECS_PER_DAY: u32 = 86400;

/// An absolute local instant: `day` counts calendar days from a fixed epoch,
/// `sec` counts seconds since that day's midnight.
#[derive(Clone, Copy, PartialEq, Eq, Structural, Debug)]
pub struct LocalStamp {
    pub day: i64,
    pub sec: u32,
}

impl LocalStamp {
    /// The seconds-of-day component stays below one day.
    pub open spec fn wf(self) -> bool {
        self.sec < SECS_PER_DAY
    }

    /// The instant as a total count of seconds from the epoch's midnight.
    pub open spec fn total_secs(self) -> int {
        self.day * (SECS_PER_DAY as int) + self.sec
    }

    /// Strict "later than" on instants.
    pub open spec fn spec_after(self, other: LocalStamp) -> bool {
        self.total_secs() > other.total_secs()
    }

    /// The instant `d` seconds after `self`, renormalised so that the
    /// seconds-of-day component stays below one day.
    pub open spec fn plus_secs(self, d: int) -> LocalStamp {
        LocalStamp {
            day: (self.day + (self.sec + d) / (SECS_PER_DAY as int)) as i64,
            sec: ((self.sec + d) % (SECS_PER_DAY as int)) as u32,
        }
    }

    /// Compares two instants; true exactly when `self` is strictly later.
    pub fn after(self, other: LocalStamp) -> (r: bool)
        requires
            self.wf(),
            other.wf(),
        ensures
            r == self.spec_after(other),
    {
        proof {
            lemma_total_secs_order(self, other);
        }
        self.day > other.day || (self.day == other.day && self.sec > other.sec)
    }
}

/// Adding `d` nonnegative seconds to a well-formed stamp yields a well-formed
/// stamp whose total second count has grown by exactly `d`, provided the day
/// index does not run past the machine's range.
pub proof fn lemma_plus_secs(s: LocalStamp, d: int)
    requires
        s.wf(),
        0 <= d,
        s.day + (s.sec + d) / (SECS_PER_DAY as int) <= i64::MAX,
    ensures
        s.plus_secs(d).wf(),
        s.plus_secs(d).total_secs() == s.total_secs() + d,
        s.day <= s.plus_secs(d).day,
{
    let x = s.sec + d;
    let c = SECS_PER_DAY as int;
    vstd::arithmetic::div_mod::lemma_fundamental_div_mod(x, c);
    vstd::arithmetic::div_mod::lemma_div_is_ordered(0, x, c);
    assert(0 <= x % c < c) by {
        vstd::arithmetic::div_mod::lemma_mod_bound(x, c);
    }
}

/// On well-formed stamps, the lexicographic (day, sec) order agrees with the
/// order of total second counts.
pub proof fn lemma_total_secs_order(a: LocalStamp, b: LocalStamp)
    requires
        a.wf(),
        b.wf(),
    ensures
        a.spec_after(b) <==> (a.day > b.day || (a.day == b.day && a.sec > b.sec)),
{
    if a.day > b.day {
        assert(a.day * (SECS_PER_DAY as int) >= (b.day + 1) * (SECS_PER_DAY as int))
            by (nonlinear_arith)
            requires a.day >= b.day + 1;
    }
    if a.day < b.day {
        assert(b.day * (SECS_PER_DAY as int) >= (a.day + 1) * (SECS_PER_DAY as int))
            by (nonlinear_arith)
            requires b.day >= a.day + 1;
    }
}

} // verus!
