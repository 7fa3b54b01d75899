//! The SUSI bus master: clocks a message out, least significant bit first.
//!
//! The master drives a push-pull clock line and an open-drain data line.  A
//! bit is put on the data line with the rising clock edge and is valid at the
//! falling edge, half a clock period later.

use vstd::prelude::*;
use crate::host::{Op, Outcome, Pin, Turn, outcome, outcome_at};
use crate::susi::Error;
use crate::susi::message::{Msg, msg_bytes};

verus! {

/// Half a clock period, in microseconds.
pub const HALF_CLK_PERIOD: u32 = 200;

/// The time after which the acknowledge is sampled, in microseconds.
pub const ACK_WINDOW: u32 = 2000;

/// What the bus slave answered to a message.
#[derive(Clone, Copy, Debug, PartialEq, Eq, Structural)]
pub enum WriterResult {
    /// The message is out and needs no acknowledge.
    Sent,
    /// The slave held the data line low at the end of the acknowledge window.
    Ack,
    /// The slave left the data line high.
    Nack,
}

/// Where the master is in a message.
#[derive(Clone, Copy, Debug, PartialEq, Eq, Structural)]
pub enum State {
    /// No message is under way.
    Idle,
    /// The next clock edge is due.
    Writing,
    /// Half a clock period has to pass.
    Waiting,
    /// All bits are out and the acknowledge window is running.
    WaitingForAck,
}

/// The state of the bus master.
#[derive(Clone, Copy, Debug, PartialEq, Eq)]
pub struct WriterState {
    /// The bytes of the message under way.
    pub buf: [u8; 3],
    /// The level that the clock line was last driven to.
    pub last_clk: bool,
    /// How many bits have had their falling edge.
    pub bits_written: u8,
    /// The length of the message under way, in bytes.
    pub len: u8,
    pub state: State,
}

/// Bit `n` of a message buffer, counting from the least significant bit of
/// the first byte.
pub open spec fn bit_at(buf: [u8; 3], n: u8) -> bool
    recommends
        n < 24,
{
    buf[(n / 8) as int] & (1u8 << (n % 8)) == (1u8 << (n % 8))
}

impl WriterState {
    /// What holds of every state that the master reaches: the bit count
    /// stays within the message, and a bit whose rising edge is out has not
    /// had its falling edge yet.
    pub open spec fn wf(self) -> bool {
        &&& self.len <= 3
        &&& self.bits_written <= self.len * 8
        &&& (self.last_clk ==> self.bits_written < self.len * 8)
        &&& (self.state == State::Writing ==> self.bits_written < self.len * 8)
    }

    /// The state in which nothing is under way.
    pub open spec fn idle() -> WriterState {
        WriterState {
            buf: [0u8, 0u8, 0u8],
            last_clk: false,
            bits_written: 0,
            len: 0,
            state: State::Idle,
        }
    }

    /// The state after a message is over: buffer and bit count cleared.
    pub open spec fn reset(self) -> WriterState {
        WriterState { buf: [0u8, 0u8, 0u8], bits_written: 0, state: State::Idle, ..self }
    }

    /// The state in which `msg` is taken up: its bytes and its length are
    /// recorded and the first clock edge is due.
    pub open spec fn load(self, bytes: [u8; 3], len: u8) -> WriterState {
        WriterState { buf: bytes, last_clk: false, bits_written: 0, len, state: State::Writing }
    }

    /// One clock edge, from the outcomes `io[k..]`.  After a high clock the
    /// clock goes low, which is where the slave samples, and the bit is
    /// counted; from then on half a clock period has to pass.  After a low clock the clock goes high and the data line is
    /// set for the current bit: low for a one, high for a zero, as an
    /// open-drain output has it.  Either way half a clock period is then
    /// armed.
    pub open spec fn edge(self, io: Seq<Outcome>, k: int) -> (WriterState, Turn<
        WriterResult,
        Error,
    >) {
        if self.last_clk {
            match outcome_at(io, k) {
                None => (self, Turn::Need(Op::Drive(Pin::Clock, false))),
                Some(o) => if !o.is_done() {
                    (self, Turn::Failed(Error::IOError))
                } else {
                    let fallen = WriterState {
                        last_clk: false,
                        bits_written: (self.bits_written + 1) as u8,
                        state: State::Waiting,
                        ..self
                    };
                    fallen.arm(io, k + 1)
                },
            }
        } else {
            match outcome_at(io, k) {
                None => (self, Turn::Need(Op::Drive(Pin::Clock, true))),
                Some(o) => if !o.is_done() {
                    (self, Turn::Failed(Error::IOError))
                } else {
                    let risen = WriterState { last_clk: true, ..self };
                    match outcome_at(io, k + 1) {
                        None => (
                            risen,
                            Turn::Need(
                                Op::Drive(Pin::Data, !bit_at(self.buf, self.bits_written)),
                            ),
                        ),
                        Some(o) => if !o.is_done() {
                            (risen, Turn::Failed(Error::IOError))
                        } else {
                            risen.arm(io, k + 2)
                        },
                    }
                },
            }
        }
    }

    /// Arms half a clock period and waits for it.
    pub open spec fn arm(self, io: Seq<Outcome>, k: int) -> (WriterState, Turn<
        WriterResult,
        Error,
    >) {
        match outcome_at(io, k) {
            None => (self, Turn::Need(Op::StartMicros(HALF_CLK_PERIOD))),
            Some(o) => if !o.is_done() {
                (self, Turn::Failed(Error::TimerError))
            } else {
                (WriterState { state: State::Waiting, ..self }, Turn::WouldBlock)
            },
        }
    }

    /// The end of half a clock period, from the outcomes `io[k..]`.  When
    /// every bit has had its falling edge the message is over: one that
    /// needs an acknowledge opens the acknowledge window, any other resets
    /// the master and is done.  Otherwise the next edge follows.
    pub open spec fn half_period_over(self, needs_ack: bool, io: Seq<Outcome>, k: int) -> (
        WriterState,
        Turn<WriterResult, Error>,
    ) {
        if self.bits_written == self.len * 8 {
            if needs_ack {
                let acking = WriterState { state: State::WaitingForAck, ..self };
                match outcome_at(io, k) {
                    None => (acking, Turn::Need(Op::StartMicros(ACK_WINDOW))),
                    Some(o) => if !o.is_done() {
                        (acking, Turn::Failed(Error::TimerError))
                    } else {
                        (acking, Turn::WouldBlock)
                    },
                }
            } else {
                (self.reset(), Turn::Done(WriterResult::Sent))
            }
        } else {
            WriterState { state: State::Writing, ..self }.edge(io, k)
        }
    }

    /// A call in the acknowledge window: once the window is over the data
    /// line is sampled once, low for `Ack` and high for `Nack`, and the
    /// master is reset.
    pub open spec fn await_ack(self, io: Seq<Outcome>) -> (WriterState, Turn<
        WriterResult,
        Error,
    >) {
        match outcome_at(io, 0) {
            None => (self, Turn::Need(Op::Wait)),
            Some(Outcome::WouldBlock) => (self, Turn::WouldBlock),
            Some(Outcome::Done) => match outcome_at(io, 1) {
                None => (self, Turn::Need(Op::Sample(Pin::Data))),
                Some(o) => match o.level() {
                    None => (self, Turn::Failed(Error::IOError)),
                    Some(high) => (
                        self.reset(),
                        Turn::Done(
                            if high {
                                WriterResult::Nack
                            } else {
                                WriterResult::Ack
                            },
                        ),
                    ),
                },
            },
            Some(_) => (self, Turn::Failed(Error::TimerError)),
        }
    }

    /// One call of the master with the message `msg`, as far as the outcomes
    /// `io` reach: the state at the end of the call, or at the operation that
    /// is needed next, and the answer.
    pub open spec fn run(self, msg: Msg, io: Seq<Outcome>) -> (
        WriterState,
        Turn<WriterResult, Error>,
    ) {
        match self.state {
            State::Idle => self.load(msg_bytes(msg), msg.spec_len()).edge(io, 0),
            State::Writing => self.edge(io, 0),
            State::Waiting => match outcome_at(io, 0) {
                None => (self, Turn::Need(Op::Wait)),
                Some(Outcome::WouldBlock) => (self, Turn::WouldBlock),
                Some(Outcome::Done) => self.half_period_over(msg.is_cv_access(), io, 1),
                Some(_) => (self, Turn::Failed(Error::TimerError)),
            },
            State::WaitingForAck => self.await_ack(io),
        }
    }

    /// One call of the master.  While an operation is needed the state does
    /// not change.
    pub open spec fn write(self, msg: Msg, io: Seq<Outcome>) -> (
        WriterState,
        Turn<WriterResult, Error>,
    ) {
        let (next, turn) = self.run(msg, io);
        if turn is Need {
            (self, turn)
        } else {
            (next, turn)
        }
    }
}

/// The bus master.
pub struct Writer {
    s: WriterState,
}

impl View for Writer {
    type V = WriterState;

    closed spec fn view(&self) -> WriterState {
        self.s
    }
}

pub(crate) fn arm(s: WriterState, io: &[Outcome], k: usize) -> (r: (WriterState, Turn<WriterResult, Error>))
    requires
        s.wf(),
        k < 8,
    ensures
        r == s.arm(io@, k as int),
        r.0.wf(),
{
    match outcome(io, k) {
        None => (s, Turn::Need(Op::StartMicros(HALF_CLK_PERIOD))),
        Some(o) => if !o.is_done() {
            (s, Turn::Failed(Error::TimerError))
        } else {
            (WriterState { state: State::Waiting, ..s }, Turn::WouldBlock)
        },
    }
}

fn edge(s: WriterState, io: &[Outcome], k: usize) -> (r: (WriterState, Turn<WriterResult, Error>))
    requires
        s.wf(),
        s.state == State::Writing,
        k < 4,
    ensures
        r == s.edge(io@, k as int),
        r.0.wf(),
{
    if s.last_clk {
        match outcome(io, k) {
            None => (s, Turn::Need(Op::Drive(Pin::Clock, false))),
            Some(o) => if !o.is_done() {
                (s, Turn::Failed(Error::IOError))
            } else {
                let fallen = WriterState {
                    last_clk: false,
                    bits_written: s.bits_written + 1,
                    state: State::Waiting,
                    ..s
                };
                arm(fallen, io, k + 1)
            },
        }
    } else {
        match outcome(io, k) {
            None => (s, Turn::Need(Op::Drive(Pin::Clock, true))),
            Some(o) => if !o.is_done() {
                (s, Turn::Failed(Error::IOError))
            } else {
                let risen = WriterState { last_clk: true, ..s };
                match outcome(io, k + 1) {
                    None => {
                        let byte: u8 = s.buf[(s.bits_written / 8) as usize];
                        let mask: u8 = 1u8 << (s.bits_written % 8);
                        let bit: bool = byte & mask == mask;
                        (risen, Turn::Need(Op::Drive(Pin::Data, !bit)))
                    },
                    Some(o) => if !o.is_done() {
                        (risen, Turn::Failed(Error::IOError))
                    } else {
                        arm(risen, io, k + 2)
                    },
                }
            },
        }
    }
}

impl Writer {
    #[verifier::type_invariant]
    spec fn inv(self) -> bool {
        self.s.wf()
    }

    /// A master with nothing under way.  The host has driven the clock line
    /// low.
    pub fn new() -> (writer: Writer)
        ensures
            writer@ == WriterState::idle(),
    {
        Writer {
            s: WriterState {
                buf: [0, 0, 0],
                last_clk: false,
                bits_written: 0,
                len: 0,
                state: State::Idle,
            },
        }
    }

    /// The state of the master.
    pub fn state(&self) -> (s: WriterState)
        ensures
            s == self@,
            s.wf(),
    {
        proof {
            use_type_invariant(self);
        }
        self.s
    }

    /// Advances the transmission of `msg` by one call: at most one clock
    /// edge with its data bit, one timer start and one timer wait.  The
    /// caller passes the same message until the answer is `Done`.
    pub fn write(&mut self, msg: &Msg, io: &[Outcome]) -> (turn: Turn<WriterResult, Error>)
        ensures
            (final(self)@, turn) == old(self)@.write(*msg, io@),
    {
        proof {
            use_type_invariant(&*self);
        }
        let bytes: [u8; 3] = msg.to_bytes();
        let len: u8 = msg.len();
        let s = self.s;
        let (next, turn) = match s.state {
            State::Idle => {
                let loaded = WriterState {
                    buf: bytes,
                    last_clk: false,
                    bits_written: 0,
                    len,
                    state: State::Writing,
                };
                edge(loaded, io, 0)
            },
            State::Writing => edge(s, io, 0),
            State::Waiting => match outcome(io, 0) {
                None => (s, Turn::Need(Op::Wait)),
                Some(Outcome::WouldBlock) => (s, Turn::WouldBlock),
                Some(Outcome::Done) => {
                    if s.bits_written == s.len * 8 {
                        if msg.needs_ack() {
                            let acking = WriterState { state: State::WaitingForAck, ..s };
                            match outcome(io, 1) {
                                None => (acking, Turn::Need(Op::StartMicros(ACK_WINDOW))),
                                Some(o) => if !o.is_done() {
                                    (acking, Turn::Failed(Error::TimerError))
                                } else {
                                    (acking, Turn::WouldBlock)
                                },
                            }
                        } else {
                            (
                                WriterState {
                                    buf: [0, 0, 0],
                                    bits_written: 0,
                                    state: State::Idle,
                                    ..s
                                },
                                Turn::Done(WriterResult::Sent),
                            )
                        }
                    } else {
                        edge(WriterState { state: State::Writing, ..s }, io, 1)
                    }
                },
                Some(_) => (s, Turn::Failed(Error::TimerError)),
            },
            State::WaitingForAck => match outcome(io, 0) {
                None => (s, Turn::Need(Op::Wait)),
                Some(Outcome::WouldBlock) => (s, Turn::WouldBlock),
                Some(Outcome::Done) => match outcome(io, 1) {
                    None => (s, Turn::Need(Op::Sample(Pin::Data))),
                    Some(o) => match o.level() {
                        None => (s, Turn::Failed(Error::IOError)),
                        Some(high) => (
                            WriterState { buf: [0, 0, 0], bits_written: 0, state: State::Idle, ..s },
                            Turn::Done(
                                if high {
                                    WriterResult::Nack
                                } else {
                                    WriterResult::Ack
                                },
                            ),
                        ),
                    },
                },
                Some(_) => (s, Turn::Failed(Error::TimerError)),
            },
        };
        match turn {
            Turn::Need(_) => {},
            _ => {
                self.s = next;
            },
        }
        turn
    }
}

/// A call of the master asks for at most four operations: one wait, one
/// clock edge, one data bit and one timer start.
pub proof fn lemma_write_is_bounded(s: WriterState, msg: Msg, io: Seq<Outcome>)
    requires
        io.len() >= 4,
    ensures
        !(s.write(msg, io).1 is Need),
{
}

/// The outcomes of a call in which the timer has fired and nothing fails.
pub open spec fn smooth() -> Seq<Outcome> {
    seq![Outcome::Done, Outcome::Done, Outcome::Done, Outcome::Done]
}

impl WriterState {
    /// The state after `n` smooth calls with `msg`.
    pub open spec fn after_calls(self, msg: Msg, n: nat) -> WriterState
        decreases n,
    {
        if n == 0 {
            self
        } else {
            self.after_calls(msg, (n - 1) as nat).write(msg, smooth()).0
        }
    }
}

/// Whether `s` is the state of a master that took `msg` up when idle and has
/// made `n` smooth calls with it, `n` being at least 1.
spec fn clocking(msg: Msg, n: int, s: WriterState) -> bool {
    &&& s.buf == msg_bytes(msg)
    &&& s.len == msg.spec_len()
    &&& s.state == State::Waiting
    &&& s.last_clk == (n % 2 == 1)
    &&& s.bits_written == n / 2
}

proof fn lemma_clocking(s: WriterState, msg: Msg, n: nat)
    requires
        s.state == State::Idle,
        1 <= n <= 16 * msg.spec_len(),
    ensures
        clocking(msg, n as int, s.after_calls(msg, n)),
    decreases n,
{
    if n > 1 {
        lemma_clocking(s, msg, (n - 1) as nat);
    } else {
        assert(s.after_calls(msg, 0) == s);
    }
    let before = s.after_calls(msg, (n - 1) as nat);
    let io = smooth();
    assert(io[0] == Outcome::Done && io[1] == Outcome::Done && io[2] == Outcome::Done && io[3]
        == Outcome::Done);
}

/// An idle master that takes up a message and is called smoothly puts the
/// bits of the message on the data line one after the other, the lowest bit
/// of each byte first and a one as a low level, each with a rising clock
/// edge; it would block at every call until all bits have had their falling
/// edge, and with the call after that it is done and idle again, or opens
/// the acknowledge window where the message needs one.
pub proof fn lemma_writer_clocks_out(s: WriterState, msg: Msg, n: nat)
    requires
        s.state == State::Idle,
        n <= 16 * msg.spec_len(),
    ensures
        n < 16 * msg.spec_len() ==> s.after_calls(msg, n).write(msg, smooth()).1 == Turn::<
            WriterResult,
            Error,
        >::WouldBlock,
        n < 16 * msg.spec_len() && n % 2 == 0 ==> s.after_calls(msg, n).write(
            msg,
            if n == 0 {
                seq![Outcome::Done]
            } else {
                seq![Outcome::Done, Outcome::Done]
            },
        ).1 == Turn::<WriterResult, Error>::Need(
            Op::Drive(Pin::Data, !bit_at(msg_bytes(msg), (n / 2) as u8)),
        ),
        n == 16 * msg.spec_len() && !msg.is_cv_access() ==> s.after_calls(msg, n).write(
            msg,
            smooth(),
        ) == (
            s.after_calls(msg, n).reset(),
            Turn::<WriterResult, Error>::Done(WriterResult::Sent),
        ),
        n == 16 * msg.spec_len() && msg.is_cv_access() ==> s.after_calls(msg, n).write(
            msg,
            smooth(),
        ).0.state == State::WaitingForAck,
{
    let io = smooth();
    assert(io[0] == Outcome::Done && io[1] == Outcome::Done && io[2] == Outcome::Done && io[3]
        == Outcome::Done);
    if n > 0 {
        lemma_clocking(s, msg, n);
        let short = seq![Outcome::Done, Outcome::Done];
        assert(short[0] == Outcome::Done && short[1] == Outcome::Done);
    } else {
        assert(s.after_calls(msg, 0) == s);
        let short = seq![Outcome::Done];
        assert(short[0] == Outcome::Done);
    }
}

} // verus!
