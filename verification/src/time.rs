//! Points in time, as the engine reads them.

use vstd::prelude::*;

verus! {

/// Seconds since the Unix epoch of the earliest instant a `chrono::DateTime<Utc>` can hold.
pub const MIN_SECS: i64 = -8_334_601_228_800;

/// Seconds since the Unix epoch of the last whole second a `chrono::DateTime<Utc>` can hold.
pub const MAX_SECS: i64 = 8_210_266_876_799;

/// Nanoseconds in one second.
pub const NANOS_PER_SEC: u32 = 1_000_000_000;

/// An instant in UTC: whole non-leap seconds since the Unix epoch and the
/// nanoseconds past that second. During a leap second the nanoseconds run
/// from 1_000_000_000 up to 1_999_999_999.
#[derive(Debug, Clone, Copy, PartialEq, Eq)]
pub struct Timestamp {
    pub secs: i64,
    pub nanos: u32,
}

impl Timestamp {
    /// Whether this pair of numbers denotes an instant that
    /// `chrono::DateTime<Utc>` can hold.
    pub open spec fn representable(self) -> bool {
        &&& MIN_SECS <= self.secs <= MAX_SECS
        &&& self.nanos < 2 * NANOS_PER_SEC
        &&& self.nanos >= NANOS_PER_SEC ==> self.secs % 60 == 59
    }

    /// The instant `by` seconds after `self`. Moving on from within a leap
    /// second leaves the leap second behind.
    pub open spec fn later(self, by: u32) -> Timestamp {
        Timestamp {
            secs: (self.secs + by) as i64,
            nanos: if by > 0 && self.nanos >= NANOS_PER_SEC {
                (self.nanos - NANOS_PER_SEC) as u32
            } else {
                self.nanos
            },
        }
    }

    /// Whether `self` can be moved on by `by` seconds without leaving the
    /// representable range.
    pub open spec fn can_advance(self, by: u32) -> bool {
        self.representable() && self.secs + by <= MAX_SECS
    }

    /// Chronological order: `self` is `other` or comes after it.
    pub open spec fn at_or_after(self, other: Timestamp) -> bool {
        self.secs > other.secs || (self.secs == other.secs && self.nanos >= other.nanos)
    }

    /// Makes a timestamp from its two parts.
    pub fn new(secs: i64, nanos: u32) -> (t: Timestamp)
        ensures
            t.secs == secs,
            t.nanos == nanos,
    {
        Timestamp { secs, nanos }
    }

    /// Tells whether `self` is `other` or comes after it.
    pub fn is_at_or_after(&self, other: &Timestamp) -> (r: bool)
        ensures
            r == self.at_or_after(*other),
    {
        self.secs > other.secs || (self.secs == other.secs && self.nanos >= other.nanos)
    }

    /// The instant `by` seconds after `self`, or `None` where `self` is not
    /// representable or the result would not be.
    pub fn checked_add_seconds(&self, by: u32) -> (r: Option<Timestamp>)
        ensures
            r is Some <==> self.can_advance(by),
            r matches Some(t) ==> t == self.later(by) && t.representable(),
    {
        let r = advance(*self, by);
        proof {
            if r is Some {
                lemma_later_representable(*self, by);
            }
        }
        r
    }
}

/// Moving a representable instant on, within the range, gives a
/// representable instant that is not in a leap second unless nothing was
/// added; adding at least one second gives a later second.
pub proof fn lemma_later_representable(t: Timestamp, by: u32)
    requires
        t.can_advance(by),
    ensures
        t.later(by).representable(),
        by > 0 ==> t.later(by).secs > t.secs && t.later(by).nanos < NANOS_PER_SEC,
        by == 0 ==> t.later(by) == t,
{
}

/// `chrono::DateTime::<Utc>::from_timestamp`, then `checked_add_signed` with
/// `TimeDelta::seconds(by)`. The first gives `None` exactly for a pair that
/// is out of range, has 2_000_000_000 nanoseconds or more, or has a leap
/// second's nanoseconds outside the 59th second of a minute; the second gives
/// `None` exactly where the resulting date would be out of range. Otherwise
/// the seconds are added, and a leap second's extra 1_000_000_000
/// nanoseconds are dropped when at least one second is added.
#[verifier::external_body]
fn advance(t: Timestamp, by: u32) -> (r: Option<Timestamp>)
    ensures
        r is Some <==> t.can_advance(by),
        r matches Some(u) ==> u == t.later(by),
{
    let start = chrono::DateTime::from_timestamp(t.secs, t.nanos)?;
    let end = start.checked_add_signed(chrono::TimeDelta::seconds(i64::from(by)))?;
    Some(Timestamp { secs: end.timestamp(), nanos: end.timestamp_subsec_nanos() })
}

} // verus!
