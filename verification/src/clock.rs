//! The current time, read from the system clock and checked against the
//! range of times chrono represents.
use crate::model::{ApiError, Timestamp};
use vstd::prelude::*;

verus! {

/// `std::time::SystemTime`: a reading of the system clock.
#[verifier::external_type_specification]
#[verifier::external_body]
pub struct ExSystemTime(std::time::SystemTime);

/// `std::time::SystemTimeError`: the error of a clock reading earlier than
/// the instant it was measured from.
#[verifier::external_type_specification]
#[verifier::external_body]
pub struct ExSystemTimeError(std::time::SystemTimeError);

/// `SystemTime::now`: the system clock's reading. Nothing is stated of it.
pub assume_specification[ std::time::SystemTime::now ]() -> (now: std::time::SystemTime);

/// `Duration::as_secs`: the whole seconds of a duration. Nothing is stated
/// of it.
pub assume_specification[ core::time::Duration::as_secs ](d: &core::time::Duration) -> (secs: u64);

/// `Duration::subsec_nanos`: the fractional part of a duration, in
/// nanoseconds; std documents that it is less than one billion.
pub assume_specification[ core::time::Duration::subsec_nanos ](d: &core::time::Duration) -> (nanos:
    u32)
    ensures
        nanos < 1_000_000_000,
;

/// `SystemTime::duration_since(UNIX_EPOCH)`: the time from the Unix epoch to
/// `t`, or an error when `t` is earlier than the epoch. Nothing is stated of
/// which.
#[verifier::external_body]
fn since_unix_epoch(t: &std::time::SystemTime) -> (d: Result<
    core::time::Duration,
    std::time::SystemTimeError,
>) {
    t.duration_since(std::time::UNIX_EPOCH)
}

/// `chrono::DateTime::<Utc>::from_timestamp`, read back as seconds and
/// nanoseconds through `timestamp` and `timestamp_subsec_nanos`. chrono
/// documents that these round-trip, so a time it accepts comes back
/// unchanged; it refuses (`None`) seconds outside the range of its calendar
/// and invalid nanoseconds. Which seconds are in that range is not stated.
#[verifier::external_body]
fn utc_instant(secs: i64, nanos: u32) -> (t: Option<Timestamp>)
    ensures
        t matches Some(v) ==> v == (Timestamp { secs, nanos }),
{
    match chrono::DateTime::<chrono::Utc>::from_timestamp(secs, nanos) {
        Some(dt) => Some(Timestamp { secs: dt.timestamp(), nanos: dt.timestamp_subsec_nanos() }),
        None => None,
    }
}

/// `t` can be read from the system clock: it is not before the Unix epoch
/// and its nanoseconds stay below one second.
pub open spec fn is_clock_reading(t: Timestamp) -> bool {
    0 <= t.secs && t.nanos < 1_000_000_000
}

/// `answer` is something the system clock answered through `current_time`: a
/// time that is a clock reading, or no time at all when the clock could not
/// be read. The predicate is closed: outside this module it is known only of
/// what `current_time` and `clock_now` returned, so a time made up elsewhere
/// (the epoch, a stored time) or a failure reported without the clock having
/// failed cannot pass for an answer of the clock.
pub closed spec fn clock_answer(answer: Option<Timestamp>) -> bool {
    match answer {
        Some(t) => is_clock_reading(t),
        None => true,
    }
}

/// A time the clock answered is a clock reading.
pub proof fn lemma_clock_answer_is_reading(t: Timestamp)
    requires
        clock_answer(Some(t)),
    ensures
        is_clock_reading(t),
{
}

/// What a result of `clock_now` answers: its time, or none.
pub open spec fn answer_of(r: Result<Timestamp, ApiError>) -> Option<Timestamp> {
    match r {
        Ok(t) => Some(t),
        Err(_) => None,
    }
}

/// `answer` is where a time comes from when the request gives `given`: the
/// given time itself, or else what the clock answered.
pub open spec fn stamp_source(given: Option<Timestamp>, answer: Option<Timestamp>) -> bool {
    match given {
        Some(g) => answer == Some(g),
        None => clock_answer(answer),
    }
}

/// The time `secs` seconds and `nanos` nanoseconds after the Unix epoch, as
/// a timestamp; `None` when the seconds do not fit in an `i64`.
pub fn time_since_epoch(secs: u64, nanos: u32) -> (t: Option<Timestamp>)
    ensures
        t is Some <==> secs <= i64::MAX,
        t matches Some(v) ==> v.secs == secs && v.nanos == nanos,
{
    if secs > 9_223_372_036_854_775_807u64 {
        None
    } else {
        Some(Timestamp { secs: secs as i64, nanos })
    }
}

/// The current time by the system clock, as seconds and nanoseconds since
/// the Unix epoch. `None` when the clock reads before the epoch or past the
/// times chrono represents; a time read is never before the epoch and its
/// nanoseconds stay below one second.
pub fn current_time() -> (now: Option<Timestamp>)
    ensures
        now matches Some(t) ==> is_clock_reading(t),
        clock_answer(now),
{
    let reading = std::time::SystemTime::now();
    match since_unix_epoch(&reading) {
        Ok(d) => {
            match time_since_epoch(d.as_secs(), d.subsec_nanos()) {
                Some(t) => utc_instant(t.secs, t.nanos),
                None => None,
            }
        },
        Err(_) => None,
    }
}

/// The time now by the system clock; a clock that cannot be read is answered
/// with `ApiError::Clock`.
pub fn clock_now() -> (r: Result<Timestamp, ApiError>)
    ensures
        r matches Ok(t) ==> is_clock_reading(t),
        r matches Err(e) ==> e == ApiError::Clock,
        clock_answer(answer_of(r)),
{
    match current_time() {
        Some(t) => Ok(t),
        None => Err(ApiError::Clock),
    }
}

} // verus!
