//! The direction bit of the two DCC speed commands.

use vstd::prelude::*;
use crate::base::drive::Direction;

verus! {

/// The direction bit of a baseline speed byte: bit 5, set for forward.
pub open spec fn baseline_direction_byte(dir: Direction) -> u8 {
    match dir {
        Direction::Forward => 0x20,
        Direction::Backward => 0x00,
    }
}

/// The direction that bit 5 of a baseline speed byte gives.
pub open spec fn baseline_direction(byte: u8) -> Direction {
    if byte & 0x20 == 0x20 {
        Direction::Forward
    } else {
        Direction::Backward
    }
}

/// The direction bit of an advanced speed byte: bit 7, set for forward.
pub open spec fn advanced_direction_byte(dir: Direction) -> u8 {
    match dir {
        Direction::Forward => 0x80,
        Direction::Backward => 0x00,
    }
}

/// The direction that bit 7 of an advanced speed byte gives.
pub open spec fn advanced_direction(byte: u8) -> Direction {
    if byte & 0x80 == 0x80 {
        Direction::Forward
    } else {
        Direction::Backward
    }
}

/// The DCC wire form of a direction.
pub trait DccDirection: Sized {
    /// The direction that this value stands for.
    spec fn direction(&self) -> Direction;

    fn from_baseline_byte(byte: u8) -> (dir: Direction)
        ensures
            dir == baseline_direction(byte),
    ;

    fn to_baseline_byte(&self) -> (byte: u8)
        ensures
            byte == baseline_direction_byte(self.direction()),
    ;

    fn from_advanced_byte(byte: u8) -> (dir: Direction)
        ensures
            dir == advanced_direction(byte),
    ;

    fn to_advanced_byte(&self) -> (byte: u8)
        ensures
            byte == advanced_direction_byte(self.direction()),
    ;
}

impl DccDirection for Direction {
    open spec fn direction(&self) -> Direction {
        *self
    }

    fn from_baseline_byte(byte: u8) -> (dir: Direction) {
        if byte & 0x20 == 0x20 {
            Direction::Forward
        } else {
            Direction::Backward
        }
    }

    fn to_baseline_byte(&self) -> (byte: u8) {
        match self {
            Direction::Forward => 0x20,
            Direction::Backward => 0x00,
        }
    }

    fn from_advanced_byte(byte: u8) -> (dir: Direction) {
        if byte & 0x80 == 0x80 {
            Direction::Forward
        } else {
            Direction::Backward
        }
    }

    fn to_advanced_byte(&self) -> (byte: u8) {
        match self {
            Direction::Forward => 0x80,
            Direction::Backward => 0x00,
        }
    }
}

/// Each direction byte reads back as the direction it was made from.
pub proof fn lemma_direction_round_trip(dir: Direction)
    ensures
        baseline_direction(baseline_direction_byte(dir)) == dir,
        advanced_direction(advanced_direction_byte(dir)) == dir,
{
    assert(0x20u8 & 0x20 == 0x20 && 0x00u8 & 0x20 != 0x20 && 0x80u8 & 0x80 == 0x80 && 0x00u8
        & 0x80 != 0x80) by (bit_vector);
}

} // verus!
