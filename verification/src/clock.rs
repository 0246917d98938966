//! The system clock, as the library reads it.
//!
//! Two functions here stand for functions of `std::time`. Verus sees nothing
//! inside a `Duration` and nothing can be known of a clock before it is
//! read, so neither carries a claim. What the library makes of a reading is
//! verified where the reading is used; [`is_clock_reading`] says of a value
//! that it is a reading.

use vstd::prelude::*;

verus! {

/// Reads the system clock through `SystemTime::elapsed` of `std::time`, on
/// `UNIX_EPOCH`: the time that has passed since the Unix epoch, and `None`
/// where the clock stands before the epoch. Nothing is claimed of the
/// reading.
#[verifier::external_body]
pub(crate) fn elapsed_since_epoch() -> (elapsed: Option<core::time::Duration>) {
    match std::time::UNIX_EPOCH.elapsed() {
        Ok(elapsed) => Some(elapsed),
        Err(_) => None,
    }
}

/// Stands for `Duration::as_nanos` of `core::time`: a span of time in
/// nanoseconds. Verus sees nothing inside a `Duration`, so nothing is
/// claimed of the number.
#[verifier::external_body]
pub(crate) fn whole_nanos(elapsed: &core::time::Duration) -> (nanos: u128) {
    elapsed.as_nanos()
}

/// Whether `reading` is what the system clock was read as: the nanoseconds
/// that the clock gave as passed since the Unix epoch, or `None` where the
/// clock stood before the epoch. It holds of the values that
/// [`read_clock`] hands out, and no value is known to be a reading without
/// the clock having been read.
pub closed spec fn is_clock_reading(reading: Option<u128>) -> bool {
    exists|elapsed: Option<core::time::Duration>| #[trigger]
        call_ensures(elapsed_since_epoch, (), elapsed) && match elapsed {
            Some(span) => reading matches Some(nanos) && call_ensures(
                whole_nanos,
                (&span,),
                nanos,
            ),
            None => reading is None,
        }
}

/// Reads the system clock: the nanoseconds since the Unix epoch, and `None`
/// where the clock stands before the epoch.
pub(crate) fn read_clock() -> (reading: Option<u128>)
    ensures
        is_clock_reading(reading),
{
    let elapsed = elapsed_since_epoch();
    match elapsed {
        Some(span) => {
            let nanos = whole_nanos(&span);
            assert(call_ensures(whole_nanos, (&span,), nanos));
            Some(nanos)
        },
        None => None,
    }
}

} // verus!
