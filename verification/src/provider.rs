//! Sources of the current time.

use vstd::prelude::*;

verus! {

/// A clock: anything that can tell the current time in milliseconds since
/// a fixed epoch. All generators that share one identifier space must
/// read clocks with the same epoch.
pub trait TimeProvider {
    /// The current time, in milliseconds since the epoch.
    fn timestamp(&self) -> u64;
}

/// Number of nanoseconds in a millisecond.
pub const NANOS_PER_MILLI: i128 = 1_000_000;

/// Whole milliseconds in `nanos` nanoseconds, rounded toward zero.
pub open spec fn whole_millis(nanos: i128) -> int {
    if nanos >= 0 {
        nanos / NANOS_PER_MILLI
    } else {
        -((-nanos) / (NANOS_PER_MILLI as int))
    }
}

/// Number of values of a 64-bit word, `2^64`.
pub open spec fn word_span() -> int {
    0x1_0000_0000_0000_0000
}

/// Turns a count of nanoseconds into the millisecond timestamp a
/// generator reads: whole milliseconds, of which the low 64 bits are kept.
pub fn millis_from_nanos(nanos: i128) -> (millis: u64)
    ensures
        millis == whole_millis(nanos) % word_span(),
{
    let quotient: i128 = nanos / NANOS_PER_MILLI;
    assert(quotient == whole_millis(nanos));
    let millis: u64 = quotient as u64;
    if quotient >= 0 {
        let above: u128 = quotient as u128;
        assert(millis == above % 0x1_0000_0000_0000_0000u128) by (bit_vector)
            requires
                millis == quotient as u64,
                quotient >= 0,
                above == quotient as u128,
        ;
    } else {
        let below: u128 = (-(quotient + 1)) as u128;
        assert(millis == 0xFFFF_FFFF_FFFF_FFFFu128 - below % 0x1_0000_0000_0000_0000u128)
            by (bit_vector)
            requires
                millis == quotient as u64,
                quotient < 0,
                below == (-(quotient + 1)) as u128,
        ;
    }
    millis
}

/// Turns a signed count of milliseconds into the timestamp a generator
/// reads: the same 64 bits, read as an unsigned number.
pub fn millis_from_signed(millis: i64) -> (timestamp: u64)
    ensures
        timestamp == if millis >= 0 {
            millis as int
        } else {
            millis + word_span()
        },
{
    let timestamp: u64 = millis as u64;
    if millis < 0 {
        let below: u64 = (-(millis + 1)) as u64;
        assert(timestamp == 0xFFFF_FFFF_FFFF_FFFFu64 - below) by (bit_vector)
            requires
                timestamp == millis as u64,
                millis < 0,
                below == (-(millis + 1)) as u64,
        ;
    }
    timestamp
}

/// Turns a wide count of milliseconds into the timestamp a generator
/// reads: its low 64 bits.
pub fn millis_from_wide(millis: u128) -> (timestamp: u64)
    ensures
        timestamp == millis % 0x1_0000_0000_0000_0000,
{
    let timestamp: u64 = millis as u64;
    assert(timestamp == millis % 0x1_0000_0000_0000_0000u128) by (bit_vector)
        requires
            timestamp == millis as u64,
    ;
    timestamp
}

/// Reads the clock with `chrono::Local::now()` and returns its
/// `timestamp_millis()`: milliseconds since the Unix epoch. Nothing is
/// claimed of the value. `chrono` stops the program where the system
/// clock stands before the Unix epoch.
#[verifier::external_body]
fn local_unix_millis() -> i64 {
    chrono::Local::now().timestamp_millis()
}

/// Reads the clock with `time::OffsetDateTime::now_utc()` and returns its
/// `unix_timestamp_nanos()`: nanoseconds since the Unix epoch, negative
/// before it. Nothing is claimed of the value. `time` stops the program
/// where the system clock stands outside the years it can represent.
#[verifier::external_body]
fn utc_unix_nanos() -> i128 {
    time::OffsetDateTime::now_utc().unix_timestamp_nanos()
}

/// The clock of the `chrono` crate.
#[derive(Debug)]
pub struct ChronoProvider;

impl TimeProvider for ChronoProvider {
    fn timestamp(&self) -> u64 {
        millis_from_signed(local_unix_millis())
    }
}

/// The clock of the `time` crate.
#[derive(Debug)]
pub struct TimeCrateProvider;

impl TimeProvider for TimeCrateProvider {
    fn timestamp(&self) -> u64 {
        millis_from_nanos(utc_unix_nanos())
    }
}

} // verus!
