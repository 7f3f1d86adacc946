//! The per-frame decision of whether to run the simulation stage.

use vstd::prelude::*;

verus! {

/// Longest time step, in microseconds, that one frame simulates. A longer one
/// (after a stall) is skipped rather than integrated in one leap.
pub const MAX_STEP: i64 = 150_000;

/// Whether a frame whose time step is `delta` microseconds runs the simulation
/// stage: only for a step that is neither negative nor longer than
/// `MAX_STEP`. A skipped frame renders the unchanged generation.
pub fn should_update(delta: i64) -> (r: bool)
    ensures
        r == (0 <= delta && delta <= MAX_STEP),
{
    0 <= delta && delta <= MAX_STEP
}

} // verus!
