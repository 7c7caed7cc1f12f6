use vstd::prelude::*;

verus! {

/// A point in time, counted in milliseconds from an arbitrary origin.
#[derive(Debug, Clone, Copy, PartialEq, Eq, Structural)]
pub struct Instant(pub u64);

impl Instant {
    pub fn from_millis(millis: u64) -> (r: Self)
        ensures
            r.0 == millis,
    {
        Instant(millis)
    }

    pub fn as_millis(&self) -> (r: u64)
        ensures
            r == self.0,
    {
        self.0
    }

    /// The instant `millis` milliseconds later, saturating at the largest
    /// representable instant.
    pub fn plus_millis(&self, millis: u64) -> (r: Self)
        ensures
            r.0 == sat_add(self.0, millis),
    {
        if self.0 <= u64::MAX - millis {
            Instant(self.0 + millis)
        } else {
            Instant(u64::MAX)
        }
    }

    /// Milliseconds from `earlier` to `self`, or 0 when `earlier` is not earlier.
    pub fn millis_since(&self, earlier: Instant) -> (r: u64)
        ensures
            r == sat_sub(self.0, earlier.0),
    {
        if self.0 >= earlier.0 {
            self.0 - earlier.0
        } else {
            0
        }
    }

    pub fn is_before(&self, other: Instant) -> (r: bool)
        ensures
            r == (self.0 < other.0),
    {
        self.0 < other.0
    }
}

/// The milliseconds of `i`.
pub open spec fn millis(i: Instant) -> u64 {
    i.0
}

/// `a + b`, saturating at `u64::MAX`.
pub open spec fn sat_add(a: u64, b: u64) -> u64 {
    if a + b <= u64::MAX {
        (a + b) as u64
    } else {
        u64::MAX
    }
}

/// `a - b`, saturating at 0.
pub open spec fn sat_sub(a: u64, b: u64) -> u64 {
    if a >= b {
        (a - b) as u64
    } else {
        0
    }
}

/// At `now`, at least `duration_millis` have passed since `instant`.
pub open spec fn elapsed_at(instant: Instant, duration_millis: u64, now: Instant) -> bool {
    sat_sub(now.0, instant.0) >= duration_millis
}

/// A source of the current time. Implementations read a hardware or
/// simulated clock, so two calls of `now` may return different instants.
pub trait Clock {
    fn now(&self) -> Instant;

    /// Whether at least `duration_millis` have passed since `instant`, by the
    /// clock's current reading.
    fn has_elapsed(&self, instant: Instant, duration_millis: u64) -> (r: bool)
        ensures
            exists|now: Instant| #[trigger] elapsed_at(instant, duration_millis, now) == r,
    {
        let now = self.now();
        let elapsed = now.millis_since(instant);
        assert(elapsed_at(instant, duration_millis, now) == (elapsed >= duration_millis));
        elapsed >= duration_millis
    }
}

} // verus!
