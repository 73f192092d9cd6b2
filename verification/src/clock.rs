//! Instants on the UTC time line, held as plain integers.
//!
//! A [`Timestamp`] stores whole seconds since the Unix epoch and the
//! nanoseconds inside that second. Its mathematical view is one integer: the
//! number of nanoseconds since the epoch. All phase arithmetic of a
//! notification is stated over that view.

use vstd::prelude::*;

verus! {

/// Nanoseconds in one second.
pub const NANOS_PER_SECOND: u32 = 1_000_000_000;

/// Seconds in one minute.
pub const SECONDS_PER_MINUTE: i64 = 60;

/// Seconds since the epoch of `0001-01-01T00:00:00Z`, the first instant held.
pub const MIN_SECONDS: i64 = -62_135_596_800;

/// Seconds since the epoch of `9999-12-31T23:59:59Z`, the last second held.
pub const MAX_SECONDS: i64 = 253_402_300_799;

/// Nanoseconds in `minutes` minutes.
pub open spec fn minutes_in_nanos(minutes: int) -> int {
    minutes * 60 * 1_000_000_000
}

/// Whole seconds in a span of `nanos` nanoseconds, rounded towards zero.
pub open spec fn whole_seconds(nanos: int) -> int {
    if nanos >= 0 {
        nanos / 1_000_000_000
    } else {
        -((-nanos) / 1_000_000_000)
    }
}

/// The later of two instants given as nanoseconds since the epoch.
pub open spec fn later_of(a: int, b: int) -> int {
    if a >= b {
        a
    } else {
        b
    }
}

/// An instant between the years 1 and 9999, with nanosecond resolution.
#[derive(Clone, Copy, Debug, PartialEq, Eq, Structural)]
pub struct Timestamp {
    pub secs: i64,
    pub nanos: u32,
}

impl View for Timestamp {
    type V = int;

    /// Nanoseconds since the Unix epoch.
    open spec fn view(&self) -> int {
        self.secs * 1_000_000_000 + self.nanos
    }
}

impl Timestamp {
    /// The seconds lie in the supported range and the nanoseconds within one second.
    pub open spec fn wf(&self) -> bool {
        &&& MIN_SECONDS <= self.secs <= MAX_SECONDS
        &&& self.nanos < NANOS_PER_SECOND
    }

    /// Adding `minutes` minutes stays inside the supported range.
    pub open spec fn can_add_minutes(&self, minutes: int) -> bool {
        self.secs + minutes * 60 <= MAX_SECONDS
    }

    /// Subtracting `minutes` minutes stays inside the supported range.
    pub open spec fn can_subtract_minutes(&self, minutes: int) -> bool {
        MIN_SECONDS <= self.secs - minutes * 60
    }

    /// Builds the instant `secs` seconds and `nanos` nanoseconds after the
    /// epoch, or nothing when it lies outside the supported range.
    pub fn new(secs: i64, nanos: u32) -> (r: Option<Timestamp>)
        ensures
            r is Some <==> (Timestamp { secs, nanos }).wf(),
            r is Some ==> r->0 == (Timestamp { secs, nanos }),
    {
        if MIN_SECONDS <= secs && secs <= MAX_SECONDS && nanos < NANOS_PER_SECOND {
            Some(Timestamp { secs, nanos })
        } else {
            None
        }
    }

    /// Whole seconds since the epoch (negative before it).
    pub fn get_secs(&self) -> (r: i64)
        ensures
            r == self.secs,
    {
        self.secs
    }

    /// Nanoseconds into the current second.
    pub fn get_nanos(&self) -> (r: u32)
        ensures
            r == self.nanos,
    {
        self.nanos
    }

    /// Whether adding `minutes` minutes stays inside the supported range.
    pub fn fits_plus_minutes(&self, minutes: u32) -> (r: bool)
        requires
            self.wf(),
        ensures
            r == self.can_add_minutes(minutes as int),
    {
        let span: i64 = (minutes as i64) * SECONDS_PER_MINUTE;
        self.secs <= MAX_SECONDS - span
    }

    /// The instant `minutes` minutes after this one.
    pub fn plus_minutes(&self, minutes: u32) -> (r: Timestamp)
        requires
            self.wf(),
            self.can_add_minutes(minutes as int),
        ensures
            r.wf(),
            r@ == self@ + minutes_in_nanos(minutes as int),
    {
        let span: i64 = (minutes as i64) * SECONDS_PER_MINUTE;
        Timestamp { secs: self.secs + span, nanos: self.nanos }
    }

    /// The instant `minutes` minutes before this one.
    pub fn minus_minutes(&self, minutes: u32) -> (r: Timestamp)
        requires
            self.wf(),
            self.can_subtract_minutes(minutes as int),
        ensures
            r.wf(),
            r@ == self@ - minutes_in_nanos(minutes as int),
    {
        let span: i64 = (minutes as i64) * SECONDS_PER_MINUTE;
        Timestamp { secs: self.secs - span, nanos: self.nanos }
    }

    /// Whether this instant lies strictly before `other`.
    pub fn is_before(&self, other: &Timestamp) -> (r: bool)
        requires
            self.wf(),
            other.wf(),
        ensures
            r == (self@ < other@),
    {
        self.secs < other.secs || (self.secs == other.secs && self.nanos < other.nanos)
    }

    /// The later of this instant and `other`.
    pub fn later(&self, other: &Timestamp) -> (r: Timestamp)
        requires
            self.wf(),
            other.wf(),
        ensures
            r.wf(),
            r@ == later_of(self@, other@),
            r == *self || r == *other,
    {
        if self.is_before(other) {
            *other
        } else {
            *self
        }
    }

    /// Whole seconds from this instant to `target`, rounded towards zero;
    /// negative when `target` lies in the past.
    pub fn whole_seconds_until(&self, target: &Timestamp) -> (r: i64)
        requires
            self.wf(),
            target.wf(),
        ensures
            r == whole_seconds(target@ - self@),
    {
        let secs: i64 = target.secs - self.secs;
        if secs > 0 && target.nanos < self.nanos {
            secs - 1
        } else if secs < 0 && target.nanos > self.nanos {
            secs + 1
        } else {
            secs
        }
    }
}

/// Two valid instants with the same view are the same instant.
pub proof fn lemma_view_is_injective(a: Timestamp, b: Timestamp)
    requires
        a.wf(),
        b.wf(),
        a@ == b@,
    ensures
        a == b,
{
}

} // verus!
