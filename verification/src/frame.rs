//! The per-tick frame information handed down by the external frame driver.

use vstd::prelude::*;

verus! {

/// What the frame driver supplies each tick: the elapsed time since the
/// previous tick, in the integer time unit the driver chose (the same unit
/// animations measure their frame duration in).
#[derive(Clone, Copy, Debug, PartialEq, Eq, Structural)]
pub struct FrameInfo {
    pub update_delta: u64,
}

} // verus!
