//! Direction and speed of a locomotive.

use vstd::prelude::*;

verus! {

#[derive(Clone, Copy, Debug, PartialEq, Eq, Structural)]
pub enum Direction {
    Forward,
    Backward,
}

/// A speed command.  The payload of a stepped speed is the speed step scaled
/// so that the wire encodings are shifts and masks: multiples of 8 for 14
/// steps, of 4 for 28 steps and of 2 for 128 steps.
#[derive(Clone, Copy, Debug, PartialEq, Eq, Structural)]
pub enum Speed {
    Stop,
    EmergencyStop,
    Steps14(u8),
    Steps28(u8),
    Steps128(u8),
}

} // verus!
