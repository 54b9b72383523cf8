//! Points in time, as the daemon reads them from the local clock, and the
//! arithmetic on them that the schedule needs.

use vstd::prelude::*;
use crate::duration::{nanos_per_sec, Span};

verus! {

/// The last second that a date and time can hold (31 December 262142,
/// 23:59:59 UTC), in seconds since the Unix epoch.
pub open spec fn latest_secs() -> int {
    8210266876799
}

/// The last nanosecond that a date and time can hold, since the Unix epoch.
pub open spec fn latest_total() -> int {
    latest_secs() * nanos_per_sec() + 999_999_999
}

/// A point in time: seconds since the Unix epoch, and nanoseconds into that second.
#[derive(Clone, Copy, Debug, PartialEq, Eq, Structural)]
pub struct Instant {
    pub secs: i64,
    pub nanos: u32,
}

impl Instant {
    pub open spec fn wf(self) -> bool {
        self.nanos < 1_000_000_000
    }

    /// Nanoseconds since the Unix epoch.
    pub open spec fn total(self) -> int {
        self.secs * nanos_per_sec() + self.nanos
    }

    /// Whether `self` is later than `other`.
    pub fn total_gt(&self, other: &Instant) -> (b: bool)
        requires
            self.wf(),
            other.wf(),
        ensures
            b == (self.total() > other.total()),
    {
        let b = self.secs > other.secs || (self.secs == other.secs && self.nanos > other.nanos);
        assert(b == (self.total() > other.total())) by (nonlinear_arith)
            requires
                b == (self.secs > other.secs || (self.secs == other.secs && self.nanos > other.nanos)),
                self.nanos < 1_000_000_000,
                other.nanos < 1_000_000_000,
                self.total() == self.secs * 1_000_000_000 + self.nanos,
                other.total() == other.secs * 1_000_000_000 + other.nanos,
        ;
        b
    }
}

/// A reading of the local clock: the point in time, and the hour of the day
/// (0–23) that the local time zone shows at it.
#[derive(Clone, Copy, Debug, PartialEq, Eq, Structural)]
pub struct LocalTime {
    pub instant: Instant,
    pub hour: u32,
}

impl LocalTime {
    pub open spec fn wf(self) -> bool {
        &&& self.instant.wf()
        &&& self.instant.total() <= latest_total()
        &&& self.hour < 24
    }
}

/// The largest span a signed time delta holds: `i64::MAX` milliseconds.
pub open spec fn delta_fits(d: Span) -> bool {
    d.secs < 9_223_372_036_854_775 || (d.secs == 9_223_372_036_854_775 && d.nanos <= 807_000_000)
}

/// The logout interval as a signed time delta, thirty minutes where it does
/// not fit in one.
pub open spec fn delta_or_half_hour(d: Span) -> Span {
    if delta_fits(d) { d } else { Span { secs: 1800, nanos: 0 } }
}

/// `now + d` where the result is a time that can be held, `None` otherwise.
pub fn checked_later(now: &Instant, d: &Span) -> (r: Option<Instant>)
    requires
        now.wf(),
        d.wf(),
        now.total() <= latest_total(),
        d.secs <= 9_223_372_036_854_775,
    ensures
        match r {
            Some(t) => t.wf() && t.total() == now.total() + d.total() && t.total() <= latest_total(),
            None => now.total() + d.total() > latest_total(),
        },
{
    let mut secs: i128 = now.secs as i128 + d.secs as i128;
    let mut nanos: u64 = now.nanos as u64 + d.nanos as u64;
    if nanos >= 1_000_000_000 {
        nanos = nanos - 1_000_000_000;
        secs = secs + 1;
    }
    assert(secs * nanos_per_sec() + nanos == now.total() + d.total()) by (nonlinear_arith)
        requires
            (secs == now.secs + d.secs && nanos == now.nanos + d.nanos)
            || (secs == now.secs + d.secs + 1 && nanos + 1_000_000_000 == now.nanos + d.nanos),
            now.total() == now.secs * 1_000_000_000 + now.nanos,
            d.total() == d.secs * 1_000_000_000 + d.nanos,
            nanos_per_sec() == 1_000_000_000,
    ;
    if secs > 8210266876799 {
        assert(secs * nanos_per_sec() + nanos > latest_total()) by (nonlinear_arith)
            requires secs > 8210266876799, nanos >= 0, nanos_per_sec() == 1_000_000_000,
                latest_total() == 8210266876799 * 1_000_000_000 + 999_999_999;
        None
    } else {
        assert(secs * nanos_per_sec() + nanos <= latest_total()) by (nonlinear_arith)
            requires secs <= 8210266876799, nanos < 1_000_000_000, nanos_per_sec() == 1_000_000_000,
                latest_total() == 8210266876799 * 1_000_000_000 + 999_999_999;
        Some(Instant { secs: secs as i64, nanos: nanos as u32 })
    }
}

/// `later - earlier` as a span, `None` where `later` is before `earlier`.
pub fn span_between(later: &Instant, earlier: &Instant) -> (r: Option<Span>)
    requires
        later.wf(),
        earlier.wf(),
    ensures
        match r {
            Some(s) => s.wf() && s.total() == later.total() - earlier.total(),
            None => later.total() < earlier.total(),
        },
{
    let mut secs: i128 = later.secs as i128 - earlier.secs as i128;
    let mut nanos: i64 = later.nanos as i64 - earlier.nanos as i64;
    if nanos < 0 {
        nanos = nanos + 1_000_000_000;
        secs = secs - 1;
    }
    assert(secs * nanos_per_sec() + nanos == later.total() - earlier.total()) by (nonlinear_arith)
        requires
            (secs == later.secs - earlier.secs && nanos == later.nanos - earlier.nanos)
            || (secs == later.secs - earlier.secs - 1 && nanos - 1_000_000_000 == later.nanos - earlier.nanos),
            later.total() == later.secs * 1_000_000_000 + later.nanos,
            earlier.total() == earlier.secs * 1_000_000_000 + earlier.nanos,
            nanos_per_sec() == 1_000_000_000,
    ;
    if secs < 0 {
        assert(secs * nanos_per_sec() + nanos < 0) by (nonlinear_arith)
            requires secs < 0, nanos < 1_000_000_000, nanos_per_sec() == 1_000_000_000;
        None
    } else {
        assert(secs * nanos_per_sec() + nanos >= 0) by (nonlinear_arith)
            requires secs >= 0, nanos >= 0, nanos_per_sec() == 1_000_000_000;
        Some(Span { secs: secs as u64, nanos: nanos as u32 })
    }
}

} // verus!
