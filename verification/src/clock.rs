//! The wall clock, read as time elapsed since the Unix epoch.

use std::time::{Duration, SystemTime, UNIX_EPOCH};
use vstd::prelude::*;

use crate::proto::Timestamp;

verus! {

/// `std::time::SystemTime`, an instant of the system clock. Nothing is
/// known of a value but what the functions below return for it.
#[verifier::external_type_specification]
#[verifier::external_body]
pub struct ExSystemTime(std::time::SystemTime);

/// Calls `SystemTime::now`. The reading depends on the machine's clock, so
/// nothing is claimed of it.
#[verifier::external_body]
fn system_now() -> (now: SystemTime) {
    SystemTime::now()
}

/// Calls `SystemTime::duration_since` with `UNIX_EPOCH`: the time from the
/// epoch to `instant`, or `None` where `instant` lies before the epoch.
/// Which of the two comes back is not claimed.
#[verifier::external_body]
fn since_unix_epoch(instant: &SystemTime) -> (elapsed: Option<Duration>) {
    match instant.duration_since(UNIX_EPOCH) {
        Ok(elapsed) => Some(elapsed),
        Err(_) => None,
    }
}

/// Calls `Duration::as_secs`: the whole seconds of `elapsed`.
#[verifier::external_body]
fn whole_seconds(elapsed: &Duration) -> (secs: u64) {
    elapsed.as_secs()
}

/// Calls `Duration::subsec_nanos`: the part of `elapsed` below one second,
/// in nanoseconds, which is always less than one billion.
#[verifier::external_body]
fn subsecond_nanos(elapsed: &Duration) -> (nanos: u32)
    ensures
        nanos < 1_000_000_000,
{
    elapsed.subsec_nanos()
}

/// The moment a run starts: whole seconds since the Unix epoch and the
/// nanoseconds within the current second.
#[derive(Clone, Copy, Debug, PartialEq, Eq)]
pub struct RunStamp {
    pub secs: u64,
    pub subsec_nanos: u32,
}

impl RunStamp {
    /// The nanosecond part stays below one second.
    pub open spec fn wf(self) -> bool {
        self.subsec_nanos < 1_000_000_000
    }

    /// Nanoseconds since the epoch.
    pub open spec fn nanos(self) -> nat {
        (self.secs * 1_000_000_000 + self.subsec_nanos) as nat
    }

    /// The stamp as a wire timestamp. Seconds and nanoseconds are carried
    /// over with the truncating conversion to the signed wire types.
    pub open spec fn timestamp(self) -> Timestamp {
        Timestamp { seconds: self.secs as i64, nanos: self.subsec_nanos as i32 }
    }

    /// Reads the system clock. Gives `None` when the clock stands before
    /// the Unix epoch; a stamp that comes back is well formed.
    pub fn now() -> (stamp: Option<RunStamp>)
        ensures
            stamp matches Some(s) ==> s.wf(),
    {
        let instant = system_now();
        match since_unix_epoch(&instant) {
            Some(elapsed) => RunStamp::from_reading(
                whole_seconds(&elapsed),
                subsecond_nanos(&elapsed),
            ),
            None => None,
        }
    }

    /// The stamp of a clock reading of `secs` whole seconds and
    /// `subsec_nanos` nanoseconds since the epoch. A reading whose
    /// nanosecond part reaches a full second is no stamp and gives `None`.
    pub fn from_reading(secs: u64, subsec_nanos: u32) -> (stamp: Option<RunStamp>)
        ensures
            stamp == if subsec_nanos < 1_000_000_000 {
                Some(RunStamp { secs, subsec_nanos })
            } else {
                None::<RunStamp>
            },
    {
        if subsec_nanos < 1_000_000_000 {
            Some(RunStamp { secs, subsec_nanos })
        } else {
            None
        }
    }

    /// Nanoseconds since the epoch.
    pub fn epoch_nanos(&self) -> (nanos: u128)
        ensures
            nanos == self.nanos(),
    {
        self.secs as u128 * 1_000_000_000u128 + self.subsec_nanos as u128
    }

    /// The stamp as a wire timestamp.
    pub fn to_timestamp(&self) -> (ts: Timestamp)
        ensures
            ts == self.timestamp(),
    {
        Timestamp {
            seconds: #[verifier::truncate]
            (self.secs as i64),
            nanos: #[verifier::truncate]
            (self.subsec_nanos as i32),
        }
    }
}

} // verus!
