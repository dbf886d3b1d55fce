//! Wall-clock timestamps for events, in milliseconds since the Unix epoch.

use std::time::{Duration, SystemTime, UNIX_EPOCH};
use vstd::prelude::*;

verus! {

#[verifier::external_type_specification]
#[verifier::external_body]
pub struct ExSystemTime(SystemTime);

/// `SystemTime::now`: the current reading of the system clock. Nothing is
/// claimed of the value.
#[verifier::external_body]
fn system_now() -> SystemTime {
    SystemTime::now()
}

/// `SystemTime::duration_since` with `UNIX_EPOCH`: the time elapsed since the
/// epoch, or `None` when the clock reads earlier than the epoch. Nothing is
/// claimed of the value.
#[verifier::external_body]
fn since_unix_epoch(t: &SystemTime) -> Option<Duration> {
    match t.duration_since(UNIX_EPOCH) {
        Ok(d) => Some(d),
        Err(_) => None,
    }
}

/// `Duration::as_millis`: the whole milliseconds in a duration. Nothing is
/// claimed of the value.
#[verifier::external_body]
fn whole_millis(d: &Duration) -> u128 {
    d.as_millis()
}

/// The low 64 bits of a millisecond count.
pub open spec fn low_64(millis: u128) -> u64 {
    (millis % 0x1_0000_0000_0000_0000) as u64
}

/// Narrows a millisecond count to the 64 bits that a timestamp carries.
pub fn timestamp_of_millis(millis: u128) -> (ts: u64)
    ensures
        ts == low_64(millis),
{
    (millis % 0x1_0000_0000_0000_0000) as u64
}

/// The timestamp for a reading of the clock: the low 64 bits of the
/// milliseconds since the epoch, and zero for a clock that reads earlier
/// than the epoch.
pub open spec fn reading_timestamp(reading: Option<u128>) -> u64 {
    match reading {
        Some(millis) => low_64(millis),
        None => 0,
    }
}

/// Turns a reading of the clock into a timestamp.
pub fn timestamp_of_reading(reading: Option<u128>) -> (ts: u64)
    ensures
        ts == reading_timestamp(reading),
{
    match reading {
        Some(millis) => timestamp_of_millis(millis),
        None => 0,
    }
}

/// The current time in milliseconds since the Unix epoch; zero when the
/// system clock reads earlier than the epoch.
pub fn current_timestamp() -> (ts: u64)
    ensures
        exists|reading: Option<u128>| ts == #[trigger] reading_timestamp(reading),
{
    let now = system_now();
    let reading = match since_unix_epoch(&now) {
        Some(elapsed) => Some(whole_millis(&elapsed)),
        None => None,
    };
    timestamp_of_reading(reading)
}

} // verus!
