//! Reading the local wall clock as milliseconds and seconds since the Unix
//! epoch.
//!
//! The clock itself is an outside capability; everything computed from the
//! raw reading is verified.

use vstd::prelude::*;

verus! {

/// Relies on `std::time::SystemTime::now` followed by
/// `SystemTime::duration_since(UNIX_EPOCH)`: one reading of the wall clock,
/// returned as whole seconds since the Unix epoch together with the
/// sub-second nanoseconds, which std documents to be below one billion.
/// Panics when the system clock reads before the epoch.
#[verifier::external_body]
fn clock_since_epoch() -> (r: (u64, u32))
    ensures
        r.1 < 1_000_000_000,
{
    let elapsed = std::time::SystemTime::now()
        .duration_since(std::time::UNIX_EPOCH)
        .expect("Time went backwards");
    (elapsed.as_secs(), elapsed.subsec_nanos())
}

/// A timestamp of whole seconds and sub-second nanoseconds, as milliseconds.
pub fn millis_from_parts(secs: u64, subsec_nanos: u32) -> (ms: u64)
    requires
        subsec_nanos < 1_000_000_000,
        secs * 1000 + 999 <= u64::MAX,
    ensures
        ms == secs * 1000 + subsec_nanos as int / 1_000_000,
{
    secs * 1000 + (subsec_nanos / 1_000_000) as u64
}

/// The current time as `(unix_ms, unix)`: milliseconds and whole seconds
/// since the Unix epoch.  The two values come from one clock reading, so the
/// millisecond value lies within the returned second whenever it is
/// representable; a reading too large for 64-bit milliseconds saturates.
pub fn get_unix_times() -> (r: (u64, u64))
    ensures
        r.0 >= r.1,
        r.1 * 1000 + 999 <= u64::MAX ==> r.1 * 1000 <= r.0 <= r.1 * 1000 + 999,
{
    let (secs, nanos) = clock_since_epoch();
    if secs <= (u64::MAX - 999) / 1000 {
        (millis_from_parts(secs, nanos), secs)
    } else {
        (u64::MAX, secs)
    }
}

} // verus!
