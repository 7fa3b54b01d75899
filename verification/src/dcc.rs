//! The DCC track protocol: wire encodings, packet writer and packet reader.

use vstd::prelude::*;

pub mod address;
pub mod direction;
pub mod function;
pub mod message;
pub mod reader;
pub mod speed;
pub mod writer;

verus! {

/// Errors of the DCC line codecs.
#[derive(Clone, Copy, Debug, PartialEq, Eq, Structural)]
pub enum Error {
    /// The track pin could not be driven or sampled.
    IOError,
    /// The timer could not be armed, or waiting on it failed.
    DelayError,
}

} // verus!
