//! A SUSI bus master that is done with the last falling clock edge.
//!
//! It clocks a message out as `Writer` does, but arms the first half period
//! when it takes the message up, and answers with the falling edge of the
//! last bit instead of half a period later.

use vstd::prelude::*;
use crate::host::{Op, Outcome, Pin, Turn, outcome, outcome_at};
use crate::susi::Error;
use crate::susi::message::{Msg, msg_bytes};
use crate::susi::writer::{ACK_WINDOW, HALF_CLK_PERIOD, State, WriterState, arm, bit_at};

verus! {

/// What the bus slave answered to a message.
#[derive(Clone, Copy, Debug, PartialEq, Eq, Structural)]
pub enum SenderResult {
    /// The message is out and needs no acknowledge.
    Sent,
    /// The slave held the data line low at the end of the acknowledge window.
    Ack,
    /// The slave left the data line high.
    Nack,
}

/// The answer of a call of the sender and the state that goes with it.
pub type Sending = (WriterState, Turn<SenderResult, Error>);

/// The answer of the sender for an answer of the half-period timer.
pub open spec fn armed(r: (WriterState, Turn<crate::susi::writer::WriterResult, Error>)) -> Sending {
    (
        r.0,
        match r.1 {
            Turn::Need(op) => Turn::Need(op),
            Turn::Failed(e) => Turn::Failed(e),
            _ => Turn::WouldBlock,
        },
    )
}

/// What holds of every state that the sender reaches: the bit count stays
/// below the length of the message while the message is being clocked out.
pub open spec fn sender_wf(s: WriterState) -> bool {
    &&& s.len <= 3
    &&& s.bits_written <= s.len * 8
    &&& (s.state == State::Writing || s.state == State::Waiting ==> s.bits_written < s.len * 8)
}

/// One clock edge, from the outcomes `io[k..]`.  After a low clock the clock
/// goes high and the data line is set for the current bit, low for a one
/// and high for a zero; half a clock period is armed.  After a high clock
/// the clock goes low and the bit is counted; with the last bit the message
/// is over: one that needs an acknowledge opens the acknowledge window, any
/// other resets the sender and is done.
pub open spec fn sender_edge(s: WriterState, needs_ack: bool, io: Seq<Outcome>, k: int) -> Sending {
    if s.last_clk {
        match outcome_at(io, k) {
            None => (s, Turn::Need(Op::Drive(Pin::Clock, false))),
            Some(o) => if !o.is_done() {
                (s, Turn::Failed(Error::IOError))
            } else {
                let fallen = WriterState {
                    last_clk: false,
                    bits_written: (s.bits_written + 1) as u8,
                    state: State::Waiting,
                    ..s
                };
                if fallen.bits_written == s.len * 8 {
                    if needs_ack {
                        let acking = WriterState { state: State::WaitingForAck, ..fallen };
                        match outcome_at(io, k + 1) {
                            None => (acking, Turn::Need(Op::StartMicros(ACK_WINDOW))),
                            Some(o) => if !o.is_done() {
                                (acking, Turn::Failed(Error::TimerError))
                            } else {
                                (acking, Turn::WouldBlock)
                            },
                        }
                    } else {
                        (fallen.reset(), Turn::Done(SenderResult::Sent))
                    }
                } else {
                    armed(fallen.arm(io, k + 1))
                }
            },
        }
    } else {
        match outcome_at(io, k) {
            None => (s, Turn::Need(Op::Drive(Pin::Clock, true))),
            Some(o) => if !o.is_done() {
                (s, Turn::Failed(Error::IOError))
            } else {
                let risen = WriterState { last_clk: true, ..s };
                match outcome_at(io, k + 1) {
                    None => (
                        risen,
                        Turn::Need(Op::Drive(Pin::Data, !bit_at(s.buf, s.bits_written))),
                    ),
                    Some(o) => if !o.is_done() {
                        (risen, Turn::Failed(Error::IOError))
                    } else {
                        armed(risen.arm(io, k + 2))
                    },
                }
            },
        }
    }
}

/// A call in the acknowledge window: once the window is over the data line
/// is sampled once, low for `Ack` and high for `Nack`, and the sender is
/// reset.
pub open spec fn sender_ack(s: WriterState, io: Seq<Outcome>) -> Sending {
    match outcome_at(io, 0) {
        None => (s, Turn::Need(Op::Wait)),
        Some(Outcome::WouldBlock) => (s, Turn::WouldBlock),
        Some(Outcome::Done) => match outcome_at(io, 1) {
            None => (s, Turn::Need(Op::Sample(Pin::Data))),
            Some(o) => match o.level() {
                None => (s, Turn::Failed(Error::IOError)),
                Some(high) => (
                    s.reset(),
                    Turn::Done(
                        if high {
                            SenderResult::Nack
                        } else {
                            SenderResult::Ack
                        },
                    ),
                ),
            },
        },
        Some(_) => (s, Turn::Failed(Error::TimerError)),
    }
}

/// One call of the sender with the message `msg`, as far as the outcomes
/// `io` reach.  An idle sender takes the message up and arms the first half
/// period.
pub open spec fn sender_run(s: WriterState, msg: Msg, io: Seq<Outcome>) -> Sending {
    match s.state {
        State::Idle => {
            let loaded = s.load(msg_bytes(msg), msg.spec_len());
            match outcome_at(io, 0) {
                None => (loaded, Turn::Need(Op::StartMicros(HALF_CLK_PERIOD))),
                Some(o) => if !o.is_done() {
                    (loaded, Turn::Failed(Error::TimerError))
                } else {
                    (loaded, Turn::WouldBlock)
                },
            }
        },
        State::Writing => sender_edge(s, msg.is_cv_access(), io, 0),
        State::Waiting => match outcome_at(io, 0) {
            None => (s, Turn::Need(Op::Wait)),
            Some(Outcome::WouldBlock) => (s, Turn::WouldBlock),
            Some(Outcome::Done) => sender_edge(
                WriterState { state: State::Writing, ..s },
                msg.is_cv_access(),
                io,
                1,
            ),
            Some(_) => (s, Turn::Failed(Error::TimerError)),
        },
        State::WaitingForAck => sender_ack(s, io),
    }
}

/// One call of the sender.  While an operation is needed the state does not
/// change.
pub open spec fn sender_write(s: WriterState, msg: Msg, io: Seq<Outcome>) -> Sending {
    let (next, turn) = sender_run(s, msg, io);
    if turn is Need {
        (s, turn)
    } else {
        (next, turn)
    }
}

fn rearm(s: WriterState, io: &[Outcome], k: usize) -> (r: Sending)
    requires
        s.wf(),
        sender_wf(s),
        s.state == State::Writing || s.state == State::Waiting,
        k < 8,
    ensures
        r == armed(s.arm(io@, k as int)),
        sender_wf(r.0),
{
    let (next, turn) = arm(s, io, k);
    (
        next,
        match turn {
            Turn::Need(op) => Turn::Need(op),
            Turn::Failed(e) => Turn::Failed(e),
            _ => Turn::WouldBlock,
        },
    )
}

fn edge(s: WriterState, needs_ack: bool, io: &[Outcome], k: usize) -> (r: Sending)
    requires
        sender_wf(s),
        s.state == State::Writing,
        k < 4,
    ensures
        r == sender_edge(s, needs_ack, io@, k as int),
        sender_wf(r.0),
{
    if s.last_clk {
        match outcome(io, k) {
            None => (s, Turn::Need(Op::Drive(Pin::Clock, false))),
            Some(o) => if !o.is_done() {
                (s, Turn::Failed(Error::IOError))
            } else {
                let fallen = WriterState {
                    last_clk: false,
                    bits_written: s.bits_written + 1,
                    state: State::Waiting,
                    ..s
                };
                if fallen.bits_written == s.len * 8 {
                    if needs_ack {
                        let acking = WriterState { state: State::WaitingForAck, ..fallen };
                        match outcome(io, k + 1) {
                            None => (acking, Turn::Need(Op::StartMicros(ACK_WINDOW))),
                            Some(o) => if !o.is_done() {
                                (acking, Turn::Failed(Error::TimerError))
                            } else {
                                (acking, Turn::WouldBlock)
                            },
                        }
                    } else {
                        (
                            WriterState {
                                buf: [0, 0, 0],
                                bits_written: 0,
                                state: State::Idle,
                                ..fallen
                            },
                            Turn::Done(SenderResult::Sent),
                        )
                    }
                } else {
                    rearm(fallen, io, k + 1)
                }
            },
        }
    } else {
        match outcome(io, k) {
            None => (s, Turn::Need(Op::Drive(Pin::Clock, true))),
            Some(o) => if !o.is_done() {
                (s, Turn::Failed(Error::IOError))
            } else {
                let risen = WriterState { last_clk: true, ..s };
                match outcome(io, k + 1) {
                    None => {
                        let byte: u8 = s.buf[(s.bits_written / 8) as usize];
                        let mask: u8 = 1u8 << (s.bits_written % 8);
                        let bit: bool = byte & mask == mask;
                        (risen, Turn::Need(Op::Drive(Pin::Data, !bit)))
                    },
                    Some(o) => if !o.is_done() {
                        (risen, Turn::Failed(Error::IOError))
                    } else {
                        rearm(risen, io, k + 2)
                    },
                }
            },
        }
    }
}

/// The bus master that is done with the last falling clock edge.
pub struct Sender {
    s: WriterState,
}

impl View for Sender {
    type V = WriterState;

    closed spec fn view(&self) -> WriterState {
        self.s
    }
}

impl Sender {
    #[verifier::type_invariant]
    spec fn inv(self) -> bool {
        sender_wf(self.s)
    }

    /// A sender with nothing under way.  The host has driven the clock line
    /// low.
    pub fn new() -> (sender: Sender)
        ensures
            sender@ == WriterState::idle(),
    {
        Sender {
            s: WriterState {
                buf: [0, 0, 0],
                last_clk: false,
                bits_written: 0,
                len: 0,
                state: State::Idle,
            },
        }
    }

    /// The state of the sender.
    pub fn state(&self) -> (s: WriterState)
        ensures
            s == self@,
            sender_wf(s),
    {
        proof {
            use_type_invariant(self);
        }
        self.s
    }

    /// Advances the transmission of `msg` by one call.  The caller passes
    /// the same message until the answer is `Done`.
    pub fn write(&mut self, msg: &Msg, io: &[Outcome]) -> (turn: Turn<SenderResult, Error>)
        ensures
            (final(self)@, turn) == sender_write(old(self)@, *msg, io@),
    {
        proof {
            use_type_invariant(&*self);
        }
        let s = self.s;
        let (next, turn) = match s.state {
            State::Idle => {
                let loaded = WriterState {
                    buf: msg.to_bytes(),
                    last_clk: false,
                    bits_written: 0,
                    len: msg.len(),
                    state: State::Writing,
                };
                match outcome(io, 0) {
                    None => (loaded, Turn::Need(Op::StartMicros(HALF_CLK_PERIOD))),
                    Some(o) => if !o.is_done() {
                        (loaded, Turn::Failed(Error::TimerError))
                    } else {
                        (loaded, Turn::WouldBlock)
                    },
                }
            },
            State::Writing => edge(s, msg.needs_ack(), io, 0),
            State::Waiting => match outcome(io, 0) {
                None => (s, Turn::Need(Op::Wait)),
                Some(Outcome::WouldBlock) => (s, Turn::WouldBlock),
                Some(Outcome::Done) => edge(
                    WriterState { state: State::Writing, ..s },
                    msg.needs_ack(),
                    io,
                    1,
                ),
                Some(_) => (s, Turn::Failed(Error::TimerError)),
            },
            State::WaitingForAck => match outcome(io, 0) {
                None => (s, Turn::Need(Op::Wait)),
                Some(Outcome::WouldBlock) => (s, Turn::WouldBlock),
                Some(Outcome::Done) => match outcome(io, 1) {
                    None => (s, Turn::Need(Op::Sample(Pin::Data))),
                    Some(o) => match o.level() {
                        None => (s, Turn::Failed(Error::IOError)),
                        Some(high) => (
                            WriterState { buf: [0, 0, 0], bits_written: 0, state: State::Idle, ..s },
                            Turn::Done(
                                if high {
                                    SenderResult::Nack
                                } else {
                                    SenderResult::Ack
                                },
                            ),
                        ),
                    },
                },
                Some(_) => (s, Turn::Failed(Error::TimerError)),
            },
        };
        match turn {
            Turn::Need(_) => {},
            _ => {
                self.s = next;
            },
        }
        turn
    }
}

/// A call of the sender asks for at most four operations.
pub proof fn lemma_sender_is_bounded(s: WriterState, msg: Msg, io: Seq<Outcome>)
    requires
        io.len() >= 4,
    ensures
        !(sender_write(s, msg, io).1 is Need),
{
}

} // verus!
