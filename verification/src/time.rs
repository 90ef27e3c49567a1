use vstd::prelude::*;

use crate::config::{chrono_timestamp_in_range, datetime_from_timestamp};

verus! {

/// A point in time as a database row holds it: whole seconds since the Unix
/// epoch and the nanoseconds past them (below one second; leap seconds are
/// not stored).
#[derive(Debug, Clone, Copy, PartialEq, Eq)]
pub struct Timestamp {
    pub seconds: i64,
    pub nanos: u32,
}

/// Nanoseconds in one second.
pub const NANOS_PER_SECOND: i128 = 1_000_000_000i128;

impl Timestamp {
    /// The instant, in nanoseconds since the epoch.
    pub open spec fn instant(self) -> int {
        self.seconds * 1_000_000_000 + self.nanos
    }

    /// A timestamp of whole seconds.
    pub fn from_seconds(seconds: i64) -> (t: Timestamp)
        ensures
            t.seconds == seconds,
            t.nanos == 0,
            t.instant() == seconds * 1_000_000_000,
    {
        Timestamp { seconds, nanos: 0 }
    }

    /// The instant, in nanoseconds since the epoch.
    pub fn instant_nanos(&self) -> (r: i128)
        ensures
            r == self.instant(),
    {
        (self.seconds as i128) * NANOS_PER_SECOND + (self.nanos as i128)
    }

    /// Whether this instant is not earlier than `other`.
    pub fn is_at_or_after(&self, other: &Timestamp) -> (r: bool)
        ensures
            r == (self.instant() >= other.instant()),
    {
        self.instant_nanos() >= other.instant_nanos()
    }

    /// Whether this instant is strictly later than `other`.
    pub fn is_after(&self, other: &Timestamp) -> (r: bool)
        ensures
            r == (self.instant() > other.instant()),
    {
        self.instant_nanos() > other.instant_nanos()
    }
}

/// Calls `SystemTime::now()` and its `duration_since(UNIX_EPOCH)`, which std
/// documents as an error when the clock reads before the Unix epoch, and
/// takes the duration apart into whole seconds and the nanoseconds past them
/// (below one second). Which moment the clock reads is left open.
#[verifier::external_body]
fn system_time_since_epoch() -> (since: Option<(u64, u32)>)
    ensures
        since matches Some(d) ==> d.1 < 1_000_000_000,
{
    match std::time::SystemTime::now().duration_since(std::time::UNIX_EPOCH) {
        Ok(d) => Some((d.as_secs(), d.subsec_nanos())),
        Err(_) => None,
    }
}

/// What the clock reads now, as chrono's `Utc::now` builds it: the time
/// since the Unix epoch, taken through `DateTime::from_timestamp`. `None`
/// where `Utc::now` gives up: the clock reads before the epoch, or past the
/// last moment chrono holds.
pub fn current_time() -> (now: Option<Timestamp>)
    ensures
        now matches Some(t) ==> t.seconds >= 0 && t.nanos < 1_000_000_000 && chrono_timestamp_in_range(t.seconds),
{
    match system_time_since_epoch() {
        Some((secs, nanos)) => {
            if secs > 9_223_372_036_854_775_807u64 {
                return None;
            }
            let seconds: i64 = secs as i64;
            match datetime_from_timestamp(seconds) {
                Some(t) => Some(Timestamp { seconds: t.seconds, nanos }),
                None => None,
            }
        },
        None => None,
    }
}

} // verus!
