//! Time-derived entropy and clock-derived defaults for salts, nonces and
//! expirations.
//!
//! Salts only need to differ between calls; they are drawn from the
//! high-resolution clock with the second count folded in. A deployment that
//! needs stronger unpredictability should pass explicit salts drawn from a
//! cryptographically secure source into the deterministic signing entry
//! points instead. The clock reading itself is trusted and carries no
//! contract; everything computed from it is verified as a function of the
//! reading.

use vstd::prelude::*;

verus! {

/// Thirty days, in seconds.
pub const THIRTY_DAYS_SECS: u64 = 2_592_000;

/// Nanoseconds since the Unix epoch.
///
/// Relies on std's `SystemTime`: `now` reads the system clock, which is
/// after the epoch, and `duration_since(UNIX_EPOCH)` measures the distance.
/// Nothing is assumed of the value: it differs from call to call.
#[verifier::external_body]
fn unix_time_nanos() -> u128 {
    match std::time::SystemTime::now().duration_since(std::time::UNIX_EPOCH) {
        Ok(d) => d.as_nanos(),
        Err(_) => 0,
    }
}

/// A nanosecond count reduced to seconds, wrapped into 64 bits.
pub open spec fn spec_nanos_to_secs(nanos: u128) -> u64 {
    ((nanos / 1_000_000_000) % 0x1_0000_0000_0000_0000) as u64
}

/// Converts a nanosecond count to seconds, wrapping into 64 bits.
fn nanos_to_secs(nanos: u128) -> (r: u64)
    ensures
        r == spec_nanos_to_secs(nanos),
{
    ((nanos / 1_000_000_000) % 0x1_0000_0000_0000_0000) as u64
}

/// An unpredictable 64-bit salt: the nanosecond clock with the second count
/// mixed into the high bits.
pub fn rand_salt() -> u64 {
    let nanos = unix_time_nanos();
    let low: u64 = #[verifier::truncate] (nanos as u64);
    let secs: u64 = nanos_to_secs(nanos);
    low ^ (secs << 32u64)
}

/// Seconds since the Unix epoch.
pub fn unix_time_secs() -> u64 {
    nanos_to_secs(unix_time_nanos())
}

/// The expiration thirty days after a given moment, saturating at the
/// largest representable time.
pub open spec fn spec_expiration_after(now: u64) -> u64 {
    if now <= u64::MAX - THIRTY_DAYS_SECS {
        (now + THIRTY_DAYS_SECS) as u64
    } else {
        u64::MAX
    }
}

/// Computes the expiration thirty days after the given moment.
pub fn expiration_after(now: u64) -> (r: u64)
    ensures
        r == spec_expiration_after(now),
        r >= THIRTY_DAYS_SECS,
{
    if now <= u64::MAX - THIRTY_DAYS_SECS {
        now + THIRTY_DAYS_SECS
    } else {
        u64::MAX
    }
}

/// The default order expiration: thirty days from now. Whatever the clock
/// read, the result is at least thirty days worth of seconds.
pub fn default_expiration() -> (r: u64)
    ensures
        r >= THIRTY_DAYS_SECS,
{
    expiration_after(unix_time_secs())
}

} // verus!
