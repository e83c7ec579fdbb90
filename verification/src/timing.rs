//! Frame timing: the wall-clock gap since the previous frame is clamped
//! before it reaches the integration step, so a stall never produces a large
//! integration jump and the delta handed to the shader is always positive.

use vstd::prelude::*;

verus! {

/// The largest delta handed to the integration step: 0.1 s, in nanoseconds.
pub const MAX_DELTA_NANOS: u64 = 100_000_000;

/// The clamped integration delta: the measured gap, raised to one nanosecond
/// when the clock reports none, and capped at `MAX_DELTA_NANOS`.
pub open spec fn clamped_delta(elapsed_nanos: u64) -> u64 {
    if elapsed_nanos == 0 {
        1u64
    } else if elapsed_nanos > MAX_DELTA_NANOS {
        MAX_DELTA_NANOS
    } else {
        elapsed_nanos
    }
}

/// Clamps a measured wall-clock gap to the integration delta. Whatever the
/// measured gap — zero, ordinary, or a multi-second stall — the result lies
/// in `(0, MAX_DELTA_NANOS]`, that is in `(0, 0.1]` seconds.
pub fn clamp_delta_nanos(elapsed_nanos: u64) -> (r: u64)
    ensures
        r == clamped_delta(elapsed_nanos),
        0 < r <= MAX_DELTA_NANOS,
        elapsed_nanos > 0 && elapsed_nanos <= MAX_DELTA_NANOS ==> r == elapsed_nanos,
{
    if elapsed_nanos == 0 {
        1
    } else if elapsed_nanos > MAX_DELTA_NANOS {
        MAX_DELTA_NANOS
    } else {
        elapsed_nanos
    }
}

} // verus!
