use vstd::prelude::*;

verus! {

/// A span of time, counted in whole milliseconds.
#[derive(Debug, Copy, Clone, PartialEq, Eq, PartialOrd, Ord, Hash, Structural)]
pub struct Duration {
    pub millis: u64,
}

impl Duration {
    pub fn from_millis(millis: u64) -> (d: Duration)
        ensures
            d.millis == millis,
    {
        Duration { millis }
    }

    pub fn from_secs(secs: u64) -> (d: Duration)
        requires
            secs * 1000 <= u64::MAX,
        ensures
            d.millis == secs * 1000,
    {
        Duration { millis: secs * 1000 }
    }

    pub fn as_millis(self) -> (m: u64)
        ensures
            m == self.millis,
    {
        self.millis
    }
}

/// A point in time, counted in whole milliseconds from a fixed epoch.
#[derive(Debug, Copy, Clone, PartialEq, Eq, PartialOrd, Ord, Hash, Structural)]
pub struct Instant {
    pub millis: u64,
}

/// Relies on `std::time::SystemTime::now` for a wall-clock reading, converted
/// to whole milliseconds since the UNIX epoch. Nothing is assumed about the
/// returned value: two readings may give any two numbers, so every function
/// that reasons about time takes an `Instant` argument instead.
#[verifier::external_body]
fn clock_millis() -> u64 {
    match std::time::SystemTime::now().duration_since(std::time::UNIX_EPOCH) {
        Ok(d) => d.as_millis() as u64,
        Err(_) => 0,
    }
}

impl Instant {
    /// The current time. The value is unconstrained; callers that need to
    /// reason about time pass an `Instant` along instead of reading the clock.
    pub fn now() -> Instant {
        Instant { millis: clock_millis() }
    }

    pub fn from_millis(millis: u64) -> (t: Instant)
        ensures
            t.millis == millis,
    {
        Instant { millis }
    }

    /// Milliseconds from `earlier` up to `self`; `earlier` must not be later.
    pub fn duration_since(&self, earlier: Instant) -> (d: Duration)
        requires
            earlier.millis <= self.millis,
        ensures
            d.millis == self.millis - earlier.millis,
    {
        Duration { millis: self.millis - earlier.millis }
    }

    /// Milliseconds from `earlier` up to `self`, or zero when `earlier` is
    /// already past `self`.
    pub fn saturating_duration_since(&self, earlier: Instant) -> (d: Duration)
        ensures
            d.millis == if earlier.millis <= self.millis {
                self.millis - earlier.millis
            } else {
                0
            },
    {
        if earlier.millis <= self.millis {
            Duration { millis: self.millis - earlier.millis }
        } else {
            Duration { millis: 0 }
        }
    }

    /// Time since `self`, by a fresh clock reading; zero when the reading is
    /// not past `self`.
    pub fn elapsed(&self) -> Duration {
        let now = Instant::now();
        now.saturating_duration_since(*self)
    }

    /// The instant `duration` later, clamped at the far end of the range.
    pub open spec fn spec_add(self, duration: Duration) -> Instant {
        if self.millis + duration.millis <= u64::MAX {
            Instant { millis: (self.millis + duration.millis) as u64 }
        } else {
            Instant { millis: u64::MAX }
        }
    }

    /// The instant `duration` later, clamped at the far end of the range.
    pub fn add(self, duration: Duration) -> (t: Instant)
        ensures
            t == self.spec_add(duration),
    {
        if self.millis <= u64::MAX - duration.millis {
            Instant { millis: self.millis + duration.millis }
        } else {
            Instant { millis: u64::MAX }
        }
    }

    /// The instant `duration` earlier, clamped at zero.
    pub fn sub(self, duration: Duration) -> (t: Instant)
        ensures
            t.millis == if duration.millis <= self.millis {
                self.millis - duration.millis
            } else {
                0
            },
    {
        if duration.millis <= self.millis {
            Instant { millis: self.millis - duration.millis }
        } else {
            Instant { millis: 0 }
        }
    }
}

} // verus!
