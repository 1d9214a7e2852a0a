use vstd::prelude::*;

verus! {

/// The largest millisecond count a time value can hold.
pub open spec fn max_millis() -> nat {
    u64::MAX as nat
}

/// Saturating sum of two millisecond counts.
pub open spec fn sat_add(a: nat, b: nat) -> nat {
    if a + b > max_millis() {
        max_millis()
    } else {
        a + b
    }
}

/// Saturating difference of two millisecond counts: never below zero.
pub open spec fn sat_sub(a: nat, b: nat) -> nat {
    if a >= b {
        (a - b) as nat
    } else {
        0
    }
}

/// A span of time, in milliseconds.
#[derive(Clone, Copy, PartialEq, Eq, Structural, PartialOrd, Ord, Debug)]
pub struct Duration(u64);

/// A point in time, in milliseconds since the UNIX epoch.
#[derive(Clone, Copy, PartialEq, Eq, Structural, PartialOrd, Ord, Debug)]
pub struct Timestamp(u64);

impl View for Duration {
    type V = nat;

    closed spec fn view(&self) -> nat {
        self.0 as nat
    }
}

impl View for Timestamp {
    type V = nat;

    closed spec fn view(&self) -> nat {
        self.0 as nat
    }
}

impl Duration {
    /// Creates a duration of the given number of milliseconds.
    pub fn from_millis(millis: u64) -> (d: Duration)
        ensures
            d@ == millis,
    {
        Duration(millis)
    }

    /// Returns the number of milliseconds this duration spans.
    pub fn millis(&self) -> (m: u64)
        ensures
            m == self@,
    {
        self.0
    }
}

impl Timestamp {
    /// Creates a timestamp from a UNIX time in milliseconds.
    pub fn from_unix_millis(millis: u64) -> (t: Timestamp)
        ensures
            t@ == millis,
    {
        Timestamp(millis)
    }

    /// Moves the timestamp later by `duration`, stopping at the largest
    /// representable time.
    pub fn add(&self, duration: Duration) -> (t: Timestamp)
        ensures
            t@ == sat_add(self@, duration@),
    {
        Timestamp(self.0.saturating_add(duration.0))
    }

    /// Moves the timestamp earlier by `duration`, stopping at the epoch.
    pub fn sub(&self, duration: Duration) -> (t: Timestamp)
        ensures
            t@ == sat_sub(self@, duration@),
    {
        Timestamp(self.0.saturating_sub(duration.0))
    }

    /// Returns how much later `self` is than `other`, or zero when `other`
    /// is the later one.
    pub fn diff(&self, other: &Timestamp) -> (d: Duration)
        ensures
            d@ == sat_sub(self@, other@),
    {
        Duration(self.0.saturating_sub(other.0))
    }

    /// Returns the number of milliseconds since the UNIX epoch.
    pub fn unix_millis(&self) -> (m: u64)
        ensures
            m == self@,
    {
        self.0
    }
}

/// Moving a timestamp later never lands before it and never past the largest
/// representable time; moving it earlier never lands after it. Moving later
/// and then back by the same span never lands after the start, and returns
/// exactly to it when the first move did not saturate.
pub proof fn lemma_saturation_direction(t: Timestamp, d: Duration)
    ensures
        sat_add(t@, d@) >= t@,
        sat_add(t@, d@) <= max_millis(),
        sat_sub(t@, d@) <= t@,
        sat_sub(sat_add(t@, d@), d@) <= t@,
        t@ + d@ <= max_millis() ==> sat_sub(sat_add(t@, d@), d@) == t@,
{
    assert(t@ <= max_millis());
}

} // verus!
