//! Packet timestamps.
//!
//! Timestamps are the microseconds elapsed since the process started, cut
//! down to 32 bits (they wrap about every 71 minutes).  The process-wide start
//! instant lives with the caller; this module turns an elapsed time into the
//! timestamp carried by packets.
use vstd::prelude::*;

verus! {

/// The 32-bit packet timestamp for `elapsed_micros` microseconds since start:
/// the elapsed time modulo 2^32.
pub fn now_micro(elapsed_micros: u128) -> (r: u32)
    ensures
        r == elapsed_micros % 0x1_0000_0000,
{
    let r = #[verifier::truncate] (elapsed_micros as u32);
    assert(r == elapsed_micros % 0x1_0000_0000) by (bit_vector)
        requires
            r == #[verifier::truncate] (elapsed_micros as u32),
    ;
    r
}

} // verus!
