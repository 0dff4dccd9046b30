//! The wall-clock source, and the processor-yield hint used while the
//! generator spin-waits. Both lean on the platform and are taken on trust.

use vstd::prelude::*;

verus! {

/// Gets the current millisecond-based UNIX timestamp.
///
/// Relies on `std::time::SystemTime::now` and its `duration_since`:
/// the wall-clock time as whole milliseconds since Jan 01 1970 00:00:00
/// GMT+0000. Nothing is assumed of the value — the clock may stand still or
/// move backwards between calls, and every caller must cope with any
/// reading. A clock before 1970 is a fatal environment error and aborts.
#[verifier::external_body]
pub fn unix_timestamp_now_ms() -> u128 {
    std::time::SystemTime::now()
        .duration_since(std::time::UNIX_EPOCH)
        .expect("Time went backwards")
        .as_millis()
}

/// Relies on `core::hint::spin_loop`: a hint to the processor that the
/// caller is busy-waiting, with no observable effect on any value.
#[verifier::external_body]
pub(crate) fn spin_hint() {
    core::hint::spin_loop();
}

} // verus!
