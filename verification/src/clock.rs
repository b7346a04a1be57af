//! Wall-clock time in nanoseconds since the Unix epoch.

use vstd::prelude::*;

verus! {

#[verifier::external_type_specification]
#[verifier::external_body]
pub struct ExSystemTime(std::time::SystemTime);

/// `std::time::SystemTime::now`: the current system time. Nothing is stated of it.
#[verifier::external_body]
fn system_now() -> (r: std::time::SystemTime) {
    std::time::SystemTime::now()
}

/// `std::time::SystemTime::duration_since` the Unix epoch, `None` for a time
/// before it. Nothing is stated of the duration.
#[verifier::external_body]
fn since_unix_epoch(t: &std::time::SystemTime) -> (r: Option<std::time::Duration>) {
    t.duration_since(std::time::UNIX_EPOCH).ok()
}

/// `std::time::Duration::as_nanos`. Nothing is stated of the count.
#[verifier::external_body]
fn duration_nanos(d: &std::time::Duration) -> (r: u128) {
    d.as_nanos()
}

/// `std::time::Duration::as_millis`. Nothing is stated of the count.
#[verifier::external_body]
fn duration_millis(d: &std::time::Duration) -> (r: u128) {
    d.as_millis()
}

/// A clock reading (a count since the Unix epoch, `None` before it) as
/// `u64`: the low 64 bits of the count, 0 before the epoch.
pub open spec fn low_u64(reading: Option<u128>) -> u64 {
    match reading {
        Some(n) => n as u64,
        None => 0,
    }
}

/// A reading in nanoseconds as a signed 64-bit timestamp would give it, not
/// below zero: the count while it fits in `i64`, 0 beyond that and before
/// the epoch.
pub open spec fn i64_nanos(reading: Option<u128>) -> u64 {
    match reading {
        Some(n) => if n <= i64::MAX {
            n as u64
        } else {
            0
        },
        None => 0,
    }
}

/// `low_u64` of a reading.
pub fn reading_low_u64(reading: Option<u128>) -> (r: u64)
    ensures
        r == low_u64(reading),
{
    match reading {
        Some(n) => n as u64,
        None => 0,
    }
}

/// `i64_nanos` of a reading.
pub fn reading_i64_nanos(reading: Option<u128>) -> (r: u64)
    ensures
        r == i64_nanos(reading),
{
    match reading {
        Some(n) => if n <= i64::MAX as u128 {
            n as u64
        } else {
            0
        },
        None => 0,
    }
}

/// Two readings after the epoch, the later one no larger than `u64::MAX`,
/// keep their order once converted.
pub proof fn law_low_u64_monotone(a: u128, b: u128)
    requires
        a <= b <= u64::MAX,
    ensures
        low_u64(Some(a)) <= low_u64(Some(b)),
        low_u64(Some(b)) == b,
{
}

/// Two readings after the epoch, the later one within `i64`, keep their order
/// once converted.
pub proof fn law_i64_nanos_monotone(a: u128, b: u128)
    requires
        a <= b <= i64::MAX,
    ensures
        i64_nanos(Some(a)) <= i64_nanos(Some(b)),
        i64_nanos(Some(b)) == b,
{
}

/// The time since the Unix epoch, in milliseconds or in nanoseconds; `None`
/// before the epoch.
fn read_clock(millis: bool) -> (r: Option<u128>) {
    match since_unix_epoch(&system_now()) {
        Some(d) => Some(if millis {
            duration_millis(&d)
        } else {
            duration_nanos(&d)
        }),
        None => None,
    }
}

/// Current wall clock in milliseconds: `low_u64` of the reading (0 before
/// the epoch). The reading itself is the time: nothing is stated of it.
pub fn now_ms() -> (r: u64) {
    reading_low_u64(read_clock(true))
}

/// Current wall clock in nanoseconds: `low_u64` of the reading (0 before the
/// epoch). The reading itself is the time: nothing is stated of it.
pub fn now_ns() -> (r: u64) {
    reading_low_u64(read_clock(false))
}

/// Current UTC time in nanoseconds since the epoch: `i64_nanos` of the
/// reading, so 0 before the epoch and past the range of a signed 64-bit
/// timestamp. The reading itself is the time: nothing is stated of it.
pub fn utc_now_ns() -> (r: u64) {
    reading_i64_nanos(read_clock(false))
}

} // verus!
