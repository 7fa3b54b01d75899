//! A SUSI bus slave that acknowledges on a line of its own.
//!
//! It takes bits in as `Reader` does.  Its acknowledge drives a separate
//! output for the length of the pulse, and a pulse whose end cannot be
//! told yet just lasts on.

use vstd::prelude::*;
use crate::host::{Op, Outcome, Pin, Turn, outcome, outcome_at};
use crate::susi::message::Msg;
use crate::susi::reader::{ACK_PULSE, ReaderState, fresh, resync};

pub use crate::susi::reader::State;

verus! {

/// Errors of the receiver.
#[derive(Clone, Copy, Debug, PartialEq, Eq, Structural)]
pub enum Error {
    /// A pin could not be driven or sampled.
    IOError,
    /// The timer could not be armed.
    TimerError,
}

/// The error of the receiver for an error of the reader.
pub open spec fn error_of(e: crate::susi::Error) -> Error {
    match e {
        crate::susi::Error::IOError => Error::IOError,
        crate::susi::Error::TimerError => Error::TimerError,
    }
}

/// The end of an acknowledge from the outcomes `io`: once the pulse is over
/// the acknowledge line is released and the slave is reset.  While the
/// timer has not fired, or cannot tell, the pulse lasts on.
pub open spec fn end_ack(s: ReaderState, io: Seq<Outcome>) -> (ReaderState, Option<
    Turn<(), Error>,
>) {
    match outcome_at(io, 0) {
        None => (s, Some(Turn::Need(Op::Wait))),
        Some(Outcome::Done) => match outcome_at(io, 1) {
            None => (s, Some(Turn::Need(Op::Drive(Pin::Ack, false)))),
            Some(o) => if !o.is_done() {
                (s, Some(Turn::Failed(Error::IOError)))
            } else {
                (s.reset(), None)
            },
        },
        Some(_) => (s, Some(Turn::WouldBlock)),
    }
}

/// One call of `read`.  A slave that is acknowledging ends the pulse first,
/// or would block; then it goes on as the reader does.  While an operation
/// is needed the state does not change.
pub open spec fn receiver_read(s: ReaderState, io: Seq<Outcome>) -> (ReaderState, Turn<
    Msg,
    Error,
>) {
    let (next, turn) = if s.state == State::WaitAcknowledge {
        match end_ack(s, io) {
            (at, Some(Turn::Need(op))) => (at, Turn::<Msg, crate::susi::Error>::Need(op)),
            (at, Some(Turn::Failed(e))) => (at, Turn::Failed(crate::susi::Error::IOError)),
            (at, Some(_)) => (at, Turn::WouldBlock),
            (at, None) => at.resync(io, 2),
        }
    } else {
        s.resync(io, 0)
    };
    match turn {
        Turn::Need(op) => (s, Turn::Need(op)),
        Turn::Done(msg) => (next, Turn::Done(msg)),
        Turn::WouldBlock => (next, Turn::WouldBlock),
        Turn::Failed(e) => (next, Turn::Failed(error_of(e))),
    }
}

/// One call of `ack`.  The first call arms the pulse timer and drives the
/// acknowledge line; the calls after it end the pulse as `end_ack` says.
pub open spec fn receiver_ack(s: ReaderState, io: Seq<Outcome>) -> (ReaderState, Turn<
    (),
    Error,
>) {
    if s.state == State::WaitAcknowledge {
        match end_ack(s, io) {
            (at, Some(Turn::Need(op))) => (s, Turn::Need(op)),
            (at, Some(turn)) => (at, turn),
            (at, None) => (at, Turn::Done(())),
        }
    } else {
        match outcome_at(io, 0) {
            None => (s, Turn::Need(Op::StartMillis(ACK_PULSE))),
            Some(o) => if !o.is_done() {
                (s, Turn::Failed(Error::TimerError))
            } else {
                match outcome_at(io, 1) {
                    None => (s, Turn::Need(Op::Drive(Pin::Ack, true))),
                    Some(o) => if !o.is_done() {
                        (s, Turn::Failed(Error::IOError))
                    } else {
                        (ReaderState { state: State::WaitAcknowledge, ..s }, Turn::WouldBlock)
                    },
                }
            },
        }
    }
}

fn ack_over(s: ReaderState, io: &[Outcome]) -> (r: (ReaderState, Option<Turn<(), Error>>))
    requires
        s.wf(),
    ensures
        r == end_ack(s, io@),
        r.0.wf(),
{
    match outcome(io, 0) {
        None => (s, Some(Turn::Need(Op::Wait))),
        Some(Outcome::Done) => match outcome(io, 1) {
            None => (s, Some(Turn::Need(Op::Drive(Pin::Ack, false)))),
            Some(o) => if !o.is_done() {
                (s, Some(Turn::Failed(Error::IOError)))
            } else {
                (fresh(s.last_clk), None)
            },
        },
        Some(_) => (s, Some(Turn::WouldBlock)),
    }
}

/// The bus slave with an acknowledge line of its own.
pub struct Receiver {
    s: ReaderState,
}

impl View for Receiver {
    type V = ReaderState;

    closed spec fn view(&self) -> ReaderState {
        self.s
    }
}

impl Receiver {
    #[verifier::type_invariant]
    spec fn inv(self) -> bool {
        self.s.wf()
    }

    /// A slave that has seen nothing yet.  `last_clk` is the level of the
    /// clock line now, or `false` where it cannot be sampled.
    pub fn new(last_clk: bool) -> (receiver: Receiver)
        ensures
            receiver@ == ReaderState::fresh(last_clk),
    {
        Receiver { s: fresh(last_clk) }
    }

    /// The state of the slave.
    pub fn state(&self) -> (s: ReaderState)
        ensures
            s == self@,
            s.wf(),
    {
        proof {
            use_type_invariant(self);
        }
        self.s
    }

    /// Samples the clock once and takes in a bit on a falling edge.
    pub fn read(&mut self, io: &[Outcome]) -> (turn: Turn<Msg, Error>)
        ensures
            (final(self)@, turn) == receiver_read(old(self)@, io@),
    {
        proof {
            use_type_invariant(&*self);
        }
        let s = self.s;
        let (next, turn) = if s.state == State::WaitAcknowledge {
            match ack_over(s, io) {
                (at, Some(Turn::Need(op))) => (at, Turn::Need(op)),
                (at, Some(Turn::Failed(_))) => (at, Turn::Failed(crate::susi::Error::IOError)),
                (at, Some(_)) => (at, Turn::WouldBlock),
                (at, None) => resync(at, io, 2),
            }
        } else {
            resync(s, io, 0)
        };
        match turn {
            Turn::Need(op) => Turn::Need(op),
            Turn::Done(msg) => {
                self.s = next;
                Turn::Done(msg)
            },
            Turn::WouldBlock => {
                self.s = next;
                Turn::WouldBlock
            },
            Turn::Failed(e) => {
                self.s = next;
                Turn::Failed(
                    match e {
                        crate::susi::Error::IOError => Error::IOError,
                        crate::susi::Error::TimerError => Error::TimerError,
                    },
                )
            },
        }
    }

    /// Acknowledges the message that was read last.
    pub fn ack(&mut self, io: &[Outcome]) -> (turn: Turn<(), Error>)
        ensures
            (final(self)@, turn) == receiver_ack(old(self)@, io@),
    {
        proof {
            use_type_invariant(&*self);
        }
        let s = self.s;
        if s.state == State::WaitAcknowledge {
            match ack_over(s, io) {
                (_, Some(turn)) => turn,
                (next, None) => {
                    self.s = next;
                    Turn::Done(())
                },
            }
        } else {
            match outcome(io, 0) {
                None => Turn::Need(Op::StartMillis(ACK_PULSE)),
                Some(o) => if !o.is_done() {
                    Turn::Failed(Error::TimerError)
                } else {
                    match outcome(io, 1) {
                        None => Turn::Need(Op::Drive(Pin::Ack, true)),
                        Some(o) => if !o.is_done() {
                            Turn::Failed(Error::IOError)
                        } else {
                            self.s = ReaderState { state: State::WaitAcknowledge, ..s };
                            Turn::WouldBlock
                        },
                    }
                },
            }
        }
    }
}

/// A call of `read` asks for at most six operations, a call of `ack` for at
/// most two.
pub proof fn lemma_receiver_is_bounded(s: ReaderState, io: Seq<Outcome>)
    ensures
        io.len() >= 6 ==> !(receiver_read(s, io).1 is Need),
        io.len() >= 2 ==> !(receiver_ack(s, io).1 is Need),
{
}

} // verus!
