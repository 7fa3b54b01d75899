//! The SUSI module bus: messages, bus master and bus slave.

use vstd::prelude::*;

pub mod message;
pub mod reader;
pub mod receiver;
pub mod sender;
pub mod writer;

verus! {

/// Errors of the SUSI line codecs.
#[derive(Clone, Copy, Debug, PartialEq, Eq, Structural)]
pub enum Error {
    /// A pin could not be driven or sampled.
    IOError,
    /// The timer could not be armed, or waiting on it failed.
    TimerError,
}

} // verus!
