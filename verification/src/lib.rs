//! Codecs and a command station for digital model-railway control.
//!
//! The crate holds the wire encodings of the DCC track protocol and of the
//! SUSI module bus, the cycle-incremental line codecs for both, and the
//! round-robin scheduler that keeps a DCC track refreshed.  The codecs never
//! touch a pin or a timer themselves: each entry point is a function of the
//! codec's state and of the outcomes of the operations that its host has
//! performed so far, and it answers with the next operation or with the
//! result of the call.

pub mod base;
pub mod host;
pub mod dcc;
pub mod susi;
pub mod station;
pub mod xpressnet;
pub mod z21;
