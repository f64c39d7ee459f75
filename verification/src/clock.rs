//! The wall clock, in milliseconds since the Unix epoch.
use vstd::prelude::*;

verus! {

/// std's reading of the system clock.
#[verifier::external_type_specification]
#[verifier::external_body]
pub struct ExSystemTime(std::time::SystemTime);

/// std's error for a reading that lies before the time it is measured from.
#[verifier::external_type_specification]
#[verifier::external_body]
pub struct ExSystemTimeError(std::time::SystemTimeError);

/// Whether a time is one that the system clock gave as its reading.
pub uninterp spec fn is_clock_reading(t: std::time::SystemTime) -> bool;

/// `SystemTime::now` of std: a reading of the system clock. Which time that is, is
/// left to the clock.
pub assume_specification[ std::time::SystemTime::now ]() -> (now: std::time::SystemTime)
    ensures
        is_clock_reading(now),
;

/// A time in nanoseconds after the Unix epoch, negative before it.
pub uninterp spec fn epoch_nanos(t: std::time::SystemTime) -> int;

/// The nanoseconds of a duration.
pub uninterp spec fn nanos_of(d: std::time::Duration) -> nat;

/// `SystemTime::duration_since` of std: the time from `earlier` to `now`, or an
/// error where `now` lies before `earlier`.
pub assume_specification[ std::time::SystemTime::duration_since ](
    now: &std::time::SystemTime,
    earlier: std::time::SystemTime,
) -> (elapsed: Result<std::time::Duration, std::time::SystemTimeError>)
    ensures
        match elapsed {
            Ok(d) => nanos_of(d) == epoch_nanos(*now) - epoch_nanos(earlier),
            Err(_) => epoch_nanos(*now) < epoch_nanos(earlier),
        },
;

/// `Duration::as_millis` of std: the whole milliseconds of a duration.
pub assume_specification[ std::time::Duration::as_millis ](d: &std::time::Duration) -> (ms: u128)
    ensures
        ms == nanos_of(*d) / 1_000_000,
;

/// `UNIX_EPOCH` of std: the moment that the count starts from.
#[verifier::external_body]
fn unix_epoch() -> (t: std::time::SystemTime)
    ensures
        epoch_nanos(t) == 0,
{
    std::time::UNIX_EPOCH
}

/// The timestamp for a clock that reads `elapsed` milliseconds after the epoch,
/// or `None` where it reads before: the low 64 bits, and zero before the epoch.
pub open spec fn timestamp_of(elapsed: Option<u128>) -> u64 {
    match elapsed {
        Some(ms) => (ms % 0x1_0000_0000_0000_0000) as u64,
        None => 0,
    }
}

/// The timestamp for a given reading of the clock.
pub fn timestamp(elapsed: Option<u128>) -> (ts: u64)
    ensures
        ts == timestamp_of(elapsed),
{
    match elapsed {
        Some(ms) => {
            assert(ms as u64 == ms % 0x1_0000_0000_0000_0000u128) by (bit_vector);
            #[verifier::truncate]
            let low: u64 = ms as u64;
            low
        },
        None => 0,
    }
}

/// The timestamp of a time that lies `nanos` nanoseconds after the Unix epoch: the low
/// 64 bits of its whole milliseconds, and zero before the epoch.
pub open spec fn timestamp_at(nanos: int) -> u64 {
    if nanos < 0 {
        0
    } else {
        ((nanos / 1_000_000) % 0x1_0000_0000_0000_0000) as u64
    }
}

/// Whether `ts` is the timestamp of a reading of the system clock.
pub open spec fn is_clock_timestamp(ts: u64) -> bool {
    exists|t: std::time::SystemTime| #[trigger]
        is_clock_reading(t) && ts == timestamp_at(epoch_nanos(t))
}

/// Milliseconds since the Unix epoch by the system clock, zero when the clock
/// reads before the epoch. Which time the clock reads is left to it.
pub fn now_ms() -> (ts: u64)
    ensures
        is_clock_timestamp(ts),
{
    let now = std::time::SystemTime::now();
    let ts: u64 = timestamp(
        match now.duration_since(unix_epoch()) {
            Ok(d) => Some(d.as_millis()),
            Err(_) => None,
        },
    );
    assert(is_clock_reading(now) && ts == timestamp_at(epoch_nanos(now)));
    ts
}

/// A later time has no smaller timestamp, as long as its milliseconds fit in 64 bits.
pub proof fn timestamps_follow_time(earlier: int, later: int)
    requires
        earlier <= later,
        later / 1_000_000 <= u64::MAX,
    ensures
        timestamp_at(earlier) <= timestamp_at(later),
{
}

/// A timestamp counts the whole milliseconds since the epoch, as long as they fit in 64
/// bits, and is zero before the epoch.
pub proof fn timestamp_counts_milliseconds(nanos: int)
    ensures
        nanos < 0 ==> timestamp_at(nanos) == 0,
        0 <= nanos && nanos / 1_000_000 <= u64::MAX ==> timestamp_at(nanos) * 1_000_000 <= nanos
            < (timestamp_at(nanos) + 1) * 1_000_000,
{
}

/// Past 64 bits the timestamps start again from zero.
pub proof fn timestamps_start_over(nanos: int)
    requires
        nanos >= 0,
    ensures
        timestamp_at(nanos + 0x1_0000_0000_0000_0000 * 1_000_000) == timestamp_at(nanos),
{
    let ms = nanos / 1_000_000;
    assert((nanos + 0x1_0000_0000_0000_0000 * 1_000_000) / 1_000_000 == ms
        + 0x1_0000_0000_0000_0000);
    assert((ms + 0x1_0000_0000_0000_0000) % 0x1_0000_0000_0000_0000 == ms
        % 0x1_0000_0000_0000_0000);
}

/// The timestamp of a time and that of its whole milliseconds are the same.
pub proof fn timestamp_needs_milliseconds_only(ms: u128, rest: int)
    requires
        0 <= rest < 1_000_000,
    ensures
        timestamp_of(Some(ms)) == timestamp_at(ms * 1_000_000 + rest),
        timestamp_of(None) == timestamp_at(-1 - rest),
{
    assert((ms * 1_000_000 + rest) / 1_000_000 == ms);
}

} // verus!
