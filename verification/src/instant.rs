//! Wall-clock instants held as milliseconds since the UNIX epoch.

use vstd::prelude::*;

verus! {

#[verifier::external_type_specification]
#[verifier::external_body]
pub struct ExSystemTimeError(std::time::SystemTimeError);

/// Calls `std::time::SystemTime::elapsed` on `UNIX_EPOCH`: the time that has
/// passed since the epoch, or an error when the clock reads earlier than it.
/// The value depends on the machine's clock, so nothing is claimed of it.
#[verifier::external_body]
fn epoch_elapsed() -> std::result::Result<std::time::Duration, std::time::SystemTimeError> {
    std::time::UNIX_EPOCH.elapsed()
}

/// Calls `std::time::Duration::as_millis`: the whole milliseconds in `d`.
/// `Duration` is opaque here, so nothing is claimed of the result.
#[verifier::external_body]
fn duration_as_millis(d: &std::time::Duration) -> u128 {
    d.as_millis()
}

/// A point in time, in milliseconds since the UNIX epoch.
#[derive(Clone, Copy, Debug, PartialEq, Eq, PartialOrd, Ord, Hash)]
pub struct Instant {
    pub millis: u64,
}

impl Instant {
    /// The instant `millis` milliseconds after the epoch.
    pub fn from_millis(millis: u64) -> (r: Instant)
        ensures
            r.millis == millis,
    {
        Instant { millis }
    }

    /// The current wall-clock time; a clock set before the epoch reads as the epoch,
    /// and one beyond `u64::MAX` milliseconds reads as `u64::MAX`.
    pub fn now() -> (r: Instant) {
        match epoch_elapsed() {
            Ok(d) => {
                let ms = duration_as_millis(&d);
                if ms > u64::MAX as u128 {
                    Instant { millis: u64::MAX }
                } else {
                    Instant { millis: ms as u64 }
                }
            },
            Err(_) => Instant { millis: 0 },
        }
    }

    /// Milliseconds from `earlier` to `self`, or zero when `earlier` is later.
    pub fn duration_since(&self, earlier: Instant) -> (d: u64)
        ensures
            d == sat_sub(self.millis, earlier.millis),
    {
        if self.millis >= earlier.millis {
            self.millis - earlier.millis
        } else {
            0
        }
    }

    /// Milliseconds from `self` to the current time (zero if the clock reads earlier).
    pub fn elapsed(&self) -> (r: u64)
        ensures
            exists|now: Instant| r == #[trigger] sat_sub(now.millis, self.millis),
    {
        let now = Instant::now();
        now.duration_since(*self)
    }

    /// The instant `ms` milliseconds later.
    pub fn add_millis(self, ms: u64) -> (r: Instant)
        requires
            self.millis + ms <= u64::MAX,
        ensures
            r.millis == self.millis + ms,
    {
        Instant { millis: self.millis + ms }
    }

    /// The instant `ms` milliseconds earlier, or the epoch if that is before it.
    pub fn sub_millis(self, ms: u64) -> (r: Instant)
        ensures
            r.millis == sat_sub(self.millis, ms),
    {
        Instant { millis: if self.millis >= ms { self.millis - ms } else { 0 } }
    }
}

/// Truncated subtraction on naturals.
pub open spec fn sat_sub(a: u64, b: u64) -> u64 {
    if a >= b { (a - b) as u64 } else { 0 }
}

} // verus!
