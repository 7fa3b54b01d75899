//! The protocol between a codec and the host that owns its pins and timer.
//!
//! A codec entry point is called with the outcomes of the operations that the
//! host has performed during the current call, oldest first.  It answers
//! `Turn::Need(op)` while it needs one more operation, and leaves the codec
//! unchanged; the host performs `op`, appends its outcome and calls again.
//! Once the outcomes suffice it answers `Turn::Ready(result)` and commits the
//! new state.

use vstd::prelude::*;

verus! {

/// A line that a codec drives or samples.
#[derive(Clone, Copy, Debug, PartialEq, Eq, Structural)]
pub enum Pin {
    /// The DCC track line.
    Track,
    /// The first of two outputs that drive the track in opposition.
    TrackA,
    /// The second of two outputs that drive the track in opposition.
    TrackB,
    /// The SUSI clock line.
    Clock,
    /// The SUSI data line.
    Data,
    /// A separate SUSI acknowledge line.
    Ack,
}

/// One operation on a pin or on the timer.
#[derive(Clone, Copy, Debug, PartialEq, Eq, Structural)]
pub enum Op {
    /// Arm the count-down timer for so many microseconds.
    StartMicros(u32),
    /// Arm the count-down timer for so many milliseconds.
    StartMillis(u32),
    /// Ask whether the timer has fired.
    Wait,
    /// Invert the level of an output.
    Toggle(Pin),
    /// Drive an output high (`true`) or low (`false`).
    Drive(Pin, bool),
    /// Sample an input.
    Sample(Pin),
}

/// What became of an operation.
#[derive(Clone, Copy, Debug, PartialEq, Eq, Structural)]
pub enum Outcome {
    /// The operation succeeded; for `Op::Wait`, the timer has fired.
    Done,
    /// The sampled input is high.
    High,
    /// The sampled input is low.
    Low,
    /// The timer has not fired yet.
    WouldBlock,
    /// The pin or the timer reported an error.
    Failed,
}

impl Outcome {
    /// Whether an operation without a result succeeded.
    pub open spec fn spec_is_done(self) -> bool {
        self == Outcome::Done
    }

    /// The level that a sample returned, if it returned one.
    pub open spec fn spec_level(self) -> Option<bool> {
        match self {
            Outcome::High => Some(true),
            Outcome::Low => Some(false),
            _ => None,
        }
    }

    #[verifier::when_used_as_spec(spec_is_done)]
    pub fn is_done(self) -> (b: bool)
        ensures
            b == self.spec_is_done(),
    {
        match self {
            Outcome::Done => true,
            _ => false,
        }
    }

    #[verifier::when_used_as_spec(spec_level)]
    pub fn level(self) -> (l: Option<bool>)
        ensures
            l == self.spec_level(),
    {
        match self {
            Outcome::High => Some(true),
            Outcome::Low => Some(false),
            _ => None,
        }
    }
}

/// The outcome of the operation with index `k` of a call, if the host has
/// performed that many.
pub open spec fn outcome_at(io: Seq<Outcome>, k: int) -> Option<Outcome> {
    if 0 <= k < io.len() {
        Some(io[k])
    } else {
        None
    }
}

/// The outcome of the operation with index `k` of a call, if the host has
/// performed that many.
pub fn outcome(io: &[Outcome], k: usize) -> (o: Option<Outcome>)
    ensures
        o == outcome_at(io@, k as int),
{
    if k < io.len() {
        Some(io[k])
    } else {
        None
    }
}

/// Why a non-blocking call did not complete.
#[derive(Debug, PartialEq, Eq)]
pub enum Pending<E> {
    /// The call has to be repeated later.
    WouldBlock,
    /// The call failed.
    Failed(E),
}

/// The result of a non-blocking call: done, would block, or failed.
pub type Poll<T, E> = Result<T, Pending<E>>;

/// The answer of a codec entry point to the outcomes it was given.
#[derive(Debug, PartialEq, Eq)]
pub enum Turn<T, E> {
    /// The host is to perform this operation and call again.
    Need(Op),
    /// The call is over and has produced a value.
    Done(T),
    /// The call is over; it has to be repeated later.
    WouldBlock,
    /// The call is over; it failed.
    Failed(E),
}

} // verus!
