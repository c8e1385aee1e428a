//! Clocks.
//!
//! Decisions take the time as an argument; the functions here read it.

use crate::proto::ProtoTimestamp;
use std::time::Duration;
use std::time::SystemTime;
use std::time::SystemTimeError;
use vstd::prelude::*;

verus! {

/// Nanoseconds in a second.
pub const NANOS_PER_SEC: u64 = 1_000_000_000;

/// `tokio::time::Instant`, a reading of the monotonic clock.
#[verifier::external_type_specification]
#[verifier::external_body]
pub struct ExInstant(tokio::time::Instant);

/// `std::time::SystemTime`, a reading of the system clock.
#[verifier::external_type_specification]
#[verifier::external_body]
pub struct ExSystemTime(SystemTime);

/// `std::time::SystemTimeError`, for a reading before the Unix epoch.
#[verifier::external_type_specification]
#[verifier::external_body]
pub struct ExSystemTimeError(SystemTimeError);

/// The length of a duration in nanoseconds.
pub uninterp spec fn duration_nanos(length: Duration) -> u128;

/// The nanoseconds from one reading of the monotonic clock to another, zero where
/// the second is the earlier one.
pub uninterp spec fn nanos_between(
    earlier: tokio::time::Instant,
    later: tokio::time::Instant,
) -> u128;

/// The nanoseconds from the Unix epoch to a reading of the system clock, none
/// where the reading is before it.
pub uninterp spec fn unix_nanos(time: SystemTime) -> Option<u128>;

/// `tokio::time::Instant::now`: the current reading. Which one it is, is not
/// determined; it is no time apart from itself.
pub assume_specification[ tokio::time::Instant::now ]() -> (reading: tokio::time::Instant)
    ensures
        nanos_between(reading, reading) == 0,
;

/// `tokio::time::Instant::duration_since`: the time between two readings, zero
/// where the earlier one is later. Its length is determined by the readings.
pub assume_specification[ tokio::time::Instant::duration_since ](
    this: &tokio::time::Instant,
    earlier: tokio::time::Instant,
) -> (elapsed: Duration)
    ensures
        duration_nanos(elapsed) == nanos_between(earlier, *this),
;

/// `std::time::SystemTime::now`: the current reading; nothing is claimed of it.
pub assume_specification[ SystemTime::now ]() -> SystemTime
;

/// `std::time::SystemTime::duration_since` with the Unix epoch: the time since
/// the epoch, an error before it. Its length is determined by the reading.
#[verifier::external_body]
fn since_epoch(time: &SystemTime) -> (elapsed: Result<Duration, SystemTimeError>)
    ensures
        match elapsed {
            Ok(length) => unix_nanos(*time) == Some(duration_nanos(length)),
            Err(_) => unix_nanos(*time) is None,
        },
{
    time.duration_since(std::time::UNIX_EPOCH)
}

/// `std::time::Duration::as_nanos`: the length in nanoseconds.
pub assume_specification[ Duration::as_nanos ](this: &Duration) -> (nanos: u128)
    ensures
        nanos == duration_nanos(*this),
;

/// Nanoseconds on the monotonic clock since a starting point.
pub struct Clock {
    origin: tokio::time::Instant,
}

/// A number, at most the largest that fits in 64 bits.
pub open spec fn saturated_at_64(n: int) -> int {
    if n <= u64::MAX {
        n
    } else {
        u64::MAX as int
    }
}

/// A number as 64 bits, at most the largest that fits.
pub fn saturated(n: u128) -> (narrow: u64)
    ensures
        narrow == saturated_at_64(n as int),
{
    if n <= u64::MAX as u128 {
        n as u64
    } else {
        u64::MAX
    }
}

impl Clock {
    /// The reading at which the clock was started.
    pub closed spec fn origin(&self) -> tokio::time::Instant {
        self.origin
    }

    /// The time on the clock at a reading of the monotonic clock: the nanoseconds
    /// since it was started, as far as they fit.
    pub open spec fn time_at(&self, reading: tokio::time::Instant) -> int {
        saturated_at_64(nanos_between(self.origin(), reading) as int)
    }

    /// `now` is the time on the clock at some reading of the monotonic clock.
    pub open spec fn reads(&self, now: u64) -> bool {
        exists|reading: tokio::time::Instant| now == #[trigger] self.time_at(reading)
    }

    /// A clock that starts now, at zero.
    pub fn start() -> (clock: Self)
        ensures
            clock.time_at(clock.origin()) == 0,
    {
        Clock { origin: tokio::time::Instant::now() }
    }

    /// Nanoseconds since the clock was started.
    pub fn now(&self) -> (now: u64)
        ensures
            self.reads(now),
    {
        let reading = tokio::time::Instant::now();
        let now: u64 = saturated(reading.duration_since(self.origin).as_nanos());
        assert(now == self.time_at(reading));
        now
    }
}

/// An unsigned 64-bit number read as a signed one.
pub open spec fn wrapped_i64(n: int) -> int {
    if n <= i64::MAX {
        n
    } else {
        n - 0x1_0000_0000_0000_0000
    }
}

/// An unsigned 32-bit number read as a signed one.
pub open spec fn wrapped_i32(n: int) -> int {
    if n <= i32::MAX {
        n
    } else {
        n - 0x1_0000_0000
    }
}

/// Reads an unsigned 64-bit number as a signed one.
pub fn wrap_i64(n: u64) -> (signed: i64)
    ensures
        signed == wrapped_i64(n as int),
{
    if n <= i64::MAX as u64 {
        n as i64
    } else {
        (n - 0x8000_0000_0000_0000) as i64 + i64::MIN
    }
}

/// Reads an unsigned 32-bit number as a signed one.
pub fn wrap_i32(n: u32) -> (signed: i32)
    ensures
        signed == wrapped_i32(n as int),
{
    if n <= i32::MAX as u32 {
        n as i32
    } else {
        (n - 0x8000_0000) as i32 + i32::MIN
    }
}

/// Whole seconds in a number of nanoseconds, at most the largest that fits.
pub open spec fn whole_seconds(nanos: int) -> int {
    if nanos / NANOS_PER_SEC as int <= u64::MAX {
        nanos / NANOS_PER_SEC as int
    } else {
        u64::MAX as int
    }
}

/// The timestamp a number of nanoseconds after the Unix epoch.
pub open spec fn unix_timestamp(nanos: int) -> ProtoTimestamp {
    ProtoTimestamp {
        seconds: wrapped_i64(whole_seconds(nanos)) as i64,
        nanos: (nanos % NANOS_PER_SEC as int) as i32,
    }
}

/// A timestamp whose nanoseconds are a fraction of a second.
pub open spec fn is_timestamp(ts: ProtoTimestamp) -> bool {
    0 <= ts.nanos < NANOS_PER_SEC
}

/// The timestamp of a reading of the system clock, the Unix epoch where the
/// reading is before it.
pub open spec fn system_timestamp(time: SystemTime) -> ProtoTimestamp {
    match unix_nanos(time) {
        Some(nanos) => unix_timestamp(nanos as int),
        None => unix_timestamp(0),
    }
}

/// The timestamp a number of nanoseconds after the Unix epoch.
pub fn timestamp_at(nanos: u128) -> (ts: ProtoTimestamp)
    ensures
        ts == unix_timestamp(nanos as int),
        is_timestamp(ts),
{
    let seconds = saturated(nanos / NANOS_PER_SEC as u128);
    ProtoTimestamp {
        seconds: wrap_i64(seconds),
        nanos: (nanos % NANOS_PER_SEC as u128) as i32,
    }
}

/// The current time of the system clock, the Unix epoch where it is set before
/// that.
pub fn now_proto_ts() -> (ts: ProtoTimestamp)
    ensures
        is_timestamp(ts),
        exists|time: SystemTime| ts == #[trigger] system_timestamp(time),
{
    let time = SystemTime::now();
    let ts = match since_epoch(&time) {
        Ok(elapsed) => timestamp_at(elapsed.as_nanos()),
        Err(_) => timestamp_at(0),
    };
    assert(ts == system_timestamp(time));
    ts
}

/// A number of nanoseconds after the Unix epoch is taken apart into seconds and
/// the nanoseconds of the last one, and nothing is lost as long as 63 bits hold
/// the seconds.
pub proof fn law_timestamp_loses_nothing(nanos: int)
    requires
        0 <= nanos < 0x8000_0000_0000_0000 * 1_000_000_000,
    ensures
        unix_timestamp(nanos).seconds * 1_000_000_000 + unix_timestamp(nanos).nanos == nanos,
        0 <= unix_timestamp(nanos).nanos < 1_000_000_000,
        is_timestamp(unix_timestamp(nanos)),
{
}

/// A timestamp of the system clock is that of the nanoseconds since the Unix
/// epoch, and the epoch itself before it.
pub proof fn law_system_time_counts_from_the_epoch(time: SystemTime)
    ensures
        unix_nanos(time) matches Some(n) ==> system_timestamp(time) == unix_timestamp(n as int),
        unix_nanos(time) is None ==> system_timestamp(time) == (ProtoTimestamp {
            seconds: 0,
            nanos: 0,
        }),
{
}

/// Reading an unsigned number as a signed one keeps it modulo the range, and as it
/// is where it fits.
pub proof fn law_wrapping_keeps_what_fits(n: int)
    ensures
        0 <= n <= u64::MAX ==> i64::MIN <= wrapped_i64(n) <= i64::MAX && (wrapped_i64(n) - n) % (
        0x1_0000_0000_0000_0000int) == 0,
        0 <= n <= u32::MAX ==> i32::MIN <= wrapped_i32(n) <= i32::MAX && (wrapped_i32(n) - n) % (
        0x1_0000_0000int) == 0,
        0 <= n <= i64::MAX ==> wrapped_i64(n) == n,
        0 <= n <= i32::MAX ==> wrapped_i32(n) == n,
{
}

/// The time on a clock is the time since it was started, in nanoseconds, as long
/// as 64 bits hold it, and stops at the largest such number.
pub proof fn law_clock_counts_nanoseconds(clock: Clock, reading: tokio::time::Instant)
    ensures
        nanos_between(clock.origin(), reading) <= u64::MAX ==> clock.time_at(reading)
            == nanos_between(clock.origin(), reading),
        nanos_between(clock.origin(), reading) > u64::MAX ==> clock.time_at(reading) == u64::MAX,
{
}

/// A timestamp counts whole seconds and less than one second of nanoseconds.
pub proof fn law_nanoseconds_are_less_than_a_second(ts: ProtoTimestamp)
    ensures
        is_timestamp(ts) <==> 0 <= ts.nanos <= 999_999_999,
{
}

} // verus!
