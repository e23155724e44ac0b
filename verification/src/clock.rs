//! The timestamps that the token store keeps. The clock itself is a
//! collaborator: a handler asks for a reading and is handed the seconds.

use vstd::prelude::*;

verus! {

/// The store's signed timestamp for a count of seconds since the Unix epoch.
///
/// Counts that do not fit wrap around, as a two's-complement conversion does.
pub open spec fn timestamp_of(seconds: u64) -> i64 {
    if seconds <= i64::MAX {
        seconds as i64
    } else {
        (seconds - 0x1_0000_0000_0000_0000) as i64
    }
}

/// Converts a count of seconds since the Unix epoch to a store timestamp.
pub fn timestamp_from_seconds(seconds: u64) -> (stamp: i64)
    ensures
        stamp == timestamp_of(seconds),
{
    if seconds <= 0x7fff_ffff_ffff_ffff {
        seconds as i64
    } else {
        let above: u64 = seconds - 0x8000_0000_0000_0000;
        (above as i64) + i64::MIN
    }
}

} // verus!
