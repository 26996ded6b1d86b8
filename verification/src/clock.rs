//! Instants, to the nanosecond, and the clock.

use vstd::prelude::*;

verus! {

/// An instant: seconds since the start of 1970 in UTC, and nanoseconds since that second began.
#[derive(Clone, Copy, Debug, PartialEq, Eq, Structural)]
pub struct Timestamp {
    /// Whole seconds since the start of 1970 in UTC.
    pub secs: i64,

    /// Nanoseconds since that second began.
    pub nanos: u32,
}

impl Timestamp {
    /// Whether `self` lies after `other`.
    pub open spec fn after(self, other: Timestamp) -> bool {
        self.secs > other.secs || (self.secs == other.secs && self.nanos > other.nanos)
    }

    /// Whether `self` lies more than `secs` seconds after `other`.
    pub open spec fn after_by(self, other: Timestamp, secs: int) -> bool {
        self.secs > other.secs + secs || (self.secs == other.secs + secs && self.nanos
            > other.nanos)
    }

    /// Whether `self` lies more than `secs` seconds after `other`.
    pub fn is_after_by(&self, other: &Timestamp, secs: u32) -> (later: bool)
        ensures
            later == self.after_by(*other, secs as int),
    {
        let limit: i128 = other.secs as i128 + secs as i128;
        let own: i128 = self.secs as i128;
        own > limit || (own == limit && self.nanos > other.nanos)
    }
}

/// Whether the clock can read `instant`: it is not before 1970, no later than the last instant that
/// `chrono` has, and fewer than a billion nanoseconds of its second have passed.
pub open spec fn is_reading(instant: Timestamp) -> bool {
    0 <= instant.secs <= 8_210_266_876_799 && instant.nanos < 1_000_000_000
}

/// Whether `instant` has been read from the clock. What instants the clock can read is known, but
/// only a call of `now` tells of one that it has.
pub closed spec fn was_read(instant: Timestamp) -> bool {
    is_reading(instant)
}

/// Reads the clock with `chrono::Local::now`.
///
/// The contract says that the instant is not before 1970, that it is no later than the last one
/// that `chrono` has, and that fewer than a billion nanoseconds of its second have passed. Which
/// instant it is rests on the machine.
#[verifier::external_body]
pub(crate) fn now() -> (instant: Timestamp)
    ensures
        is_reading(instant),
        was_read(instant),
{
    let now = chrono::Local::now();
    Timestamp { secs: now.timestamp(), nanos: now.timestamp_subsec_nanos() }
}

} // verus!
