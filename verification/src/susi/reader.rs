//! The SUSI bus slave: samples the data line on falling clock edges.
//!
//! Bits arrive least significant first.  A message is two bytes long, or
//! three where its first byte says so.  Eight milliseconds without a
//! completed byte make the slave forget a partial message, so that it finds
//! the start of the next one again.

use vstd::prelude::*;
use crate::host::{Op, Outcome, Pin, Turn, outcome, outcome_at};
use crate::susi::Error;
use crate::susi::message::{Msg, length_of_command, msg_parsed};

verus! {

/// The silence after which a partial message is dropped, in milliseconds.
pub const RESYNC_TIMEOUT: u32 = 8;

/// How long an acknowledge holds the data line, in milliseconds.
pub const ACK_PULSE: u32 = 2;

/// Where the slave is between messages.
#[derive(Clone, Copy, Debug, PartialEq, Eq, Structural)]
pub enum State {
    /// No bit has arrived since the last reset.
    Idle,
    /// The slave holds the data line to acknowledge a message.
    WaitAcknowledge,
    /// Bits have arrived and the resync timer is running.
    WaitAfterByte,
}

/// The state of the bus slave.
#[derive(Clone, Copy, Debug, PartialEq, Eq)]
pub struct ReaderState {
    /// The index of the byte that is being filled.
    pub current_byte: u8,
    /// The bytes of the message that is arriving.
    pub buf: [u8; 3],
    /// The level of the clock line at the last sample.
    pub last_clk: bool,
    /// How many bits of the current byte have arrived.
    pub bits_read: u8,
    pub state: State,
}

/// `buf` with `value` in place of the byte at `index`.
pub open spec fn with_byte(buf: [u8; 3], index: u8, value: u8) -> [u8; 3] {
    [
        if index == 0 {
            value
        } else {
            buf[0]
        },
        if index == 1 {
            value
        } else {
            buf[1]
        },
        if index == 2 {
            value
        } else {
            buf[2]
        },
    ]
}

/// The answer of a call of the slave and the state that goes with it.
pub type Reading<T> = (ReaderState, Turn<T, Error>);

impl ReaderState {
    /// What holds of every state that the slave reaches.
    pub open spec fn wf(self) -> bool {
        self.current_byte < 3 && self.bits_read <= 8
    }

    /// The state of a slave that last saw the clock at `last_clk`.
    pub open spec fn fresh(last_clk: bool) -> ReaderState {
        ReaderState {
            current_byte: 0,
            buf: [0u8, 0u8, 0u8],
            last_clk,
            bits_read: 0,
            state: State::Idle,
        }
    }

    /// The state after a reset: nothing of a message is kept.
    pub open spec fn reset(self) -> ReaderState {
        ReaderState::fresh(self.last_clk)
    }

    /// The state after a sampled bit is put at the next position of the
    /// current byte, lowest position first.  A bit that arrives while a full
    /// byte still waits for its timer is lost.
    pub open spec fn shift_in(self, bit: bool) -> ReaderState {
        if self.bits_read < 8 {
            let byte = self.buf[self.current_byte as int] | if bit {
                1u8 << self.bits_read
            } else {
                0u8
            };
            ReaderState {
                buf: with_byte(self.buf, self.current_byte, byte),
                bits_read: (self.bits_read + 1) as u8,
                ..self
            }
        } else {
            self
        }
    }

    /// The end of an acknowledge, from the outcomes `io[k..]`: once the
    /// pulse is over the data line is released and the slave is reset.
    pub open spec fn end_ack(self, io: Seq<Outcome>, k: int) -> (ReaderState, Option<
        Turn<(), Error>,
    >) {
        match outcome_at(io, k) {
            None => (self, Some(Turn::Need(Op::Wait))),
            Some(Outcome::WouldBlock) => (self, Some(Turn::WouldBlock)),
            Some(Outcome::Done) => match outcome_at(io, k + 1) {
                None => (self, Some(Turn::Need(Op::Drive(Pin::Data, false)))),
                Some(o) => if !o.is_done() {
                    (self, Some(Turn::Failed(Error::IOError)))
                } else {
                    (self.reset(), None)
                },
            },
            Some(_) => (self, Some(Turn::Failed(Error::TimerError))),
        }
    }

    /// The completion of a byte: the resync timer is armed again; with the
    /// last byte of a message the message is read from the buffer and the
    /// buffer is cleared, otherwise the next byte is taken up.
    pub open spec fn byte_done(self, io: Seq<Outcome>, k: int) -> Reading<Msg> {
        if self.bits_read == 8 {
            let timed = ReaderState { state: State::WaitAfterByte, ..self };
            match outcome_at(io, k) {
                None => (timed, Turn::Need(Op::StartMillis(RESYNC_TIMEOUT))),
                Some(o) => if !o.is_done() {
                    (timed, Turn::Failed(Error::TimerError))
                } else if self.current_byte >= length_of_command(self.buf[0]) - 1 {
                    (
                        ReaderState {
                            current_byte: 0,
                            buf: [0u8, 0u8, 0u8],
                            bits_read: 0,
                            ..timed
                        },
                        Turn::Done(msg_parsed(self.buf)),
                    )
                } else {
                    (
                        ReaderState {
                            current_byte: ((self.current_byte + 1) % 3) as u8,
                            bits_read: 0,
                            ..timed
                        },
                        Turn::WouldBlock,
                    )
                },
            }
        } else {
            (self, Turn::WouldBlock)
        }
    }

    /// A falling clock edge: the first one after a reset arms the resync
    /// timer; then the data line is sampled and the bit is shifted in.
    pub open spec fn falling_edge(self, io: Seq<Outcome>, k: int) -> Reading<Msg> {
        let timed = ReaderState { state: State::WaitAfterByte, ..self };
        if self.state == State::Idle && outcome_at(io, k) is None {
            (timed, Turn::Need(Op::StartMillis(RESYNC_TIMEOUT)))
        } else if self.state == State::Idle && !outcome_at(io, k).unwrap().is_done() {
            (timed, Turn::Failed(Error::TimerError))
        } else {
            let (s, k) = if self.state == State::Idle {
                (timed, k + 1)
            } else {
                (self, k)
            };
            match outcome_at(io, k) {
                None => (s, Turn::Need(Op::Sample(Pin::Data))),
                Some(o) => match o.level() {
                    None => (s, Turn::Failed(Error::IOError)),
                    Some(bit) => ReaderState { last_clk: false, ..s.shift_in(bit) }.byte_done(
                        io,
                        k + 1,
                    ),
                },
            }
        }
    }

    /// The sample of the clock line and what follows from it.
    pub open spec fn clock(self, io: Seq<Outcome>, k: int) -> Reading<Msg> {
        match outcome_at(io, k) {
            None => (self, Turn::Need(Op::Sample(Pin::Clock))),
            Some(o) => match o.level() {
                None => (self, Turn::Failed(Error::IOError)),
                Some(clk) => if self.last_clk && !clk {
                    self.falling_edge(io, k + 1)
                } else {
                    ReaderState { last_clk: clk, ..self }.byte_done(io, k + 1)
                },
            },
        }
    }

    /// The check of the resync timer while a message is arriving: if it has
    /// fired the slave is reset; then the clock is sampled.
    pub open spec fn resync(self, io: Seq<Outcome>, k: int) -> Reading<Msg> {
        if self.state == State::WaitAfterByte {
            match outcome_at(io, k) {
                None => (self, Turn::Need(Op::Wait)),
                Some(Outcome::Done) => self.reset().clock(io, k + 1),
                Some(_) => self.clock(io, k + 1),
            }
        } else {
            self.clock(io, k)
        }
    }

    /// One call of `read`, as far as the outcomes `io` reach: the state at
    /// the end of the call, or at the operation that is needed next, and the
    /// answer.
    pub open spec fn run(self, io: Seq<Outcome>) -> Reading<Msg> {
        if self.state == State::WaitAcknowledge {
            match self.end_ack(io, 0) {
                (s, Some(Turn::Need(op))) => (s, Turn::Need(op)),
                (s, Some(Turn::Failed(e))) => (s, Turn::Failed(e)),
                (s, Some(_)) => (s, Turn::WouldBlock),
                (s, None) => s.resync(io, 2),
            }
        } else {
            self.resync(io, 0)
        }
    }

    /// One call of `read`.  While an operation is needed the state does not
    /// change.
    pub open spec fn read(self, io: Seq<Outcome>) -> Reading<Msg> {
        let (next, turn) = self.run(io);
        if turn is Need {
            (self, turn)
        } else {
            (next, turn)
        }
    }

    /// One call of `ack`.  The first call arms the pulse timer and pulls the
    /// data line; the calls after it wait for the end of the pulse, release
    /// the line and reset the slave.
    pub open spec fn ack(self, io: Seq<Outcome>) -> Reading<()> {
        if self.state == State::WaitAcknowledge {
            match self.end_ack(io, 0) {
                (s, Some(Turn::Need(op))) => (self, Turn::Need(op)),
                (s, Some(turn)) => (s, turn),
                (s, None) => (s, Turn::Done(())),
            }
        } else {
            match outcome_at(io, 0) {
                None => (self, Turn::Need(Op::StartMillis(ACK_PULSE))),
                Some(o) => if !o.is_done() {
                    (self, Turn::Failed(Error::TimerError))
                } else {
                    match outcome_at(io, 1) {
                        None => (self, Turn::Need(Op::Drive(Pin::Data, true))),
                        Some(o) => if !o.is_done() {
                            (self, Turn::Failed(Error::IOError))
                        } else {
                            (
                                ReaderState { state: State::WaitAcknowledge, ..self },
                                Turn::WouldBlock,
                            )
                        },
                    }
                },
            }
        }
    }
}

pub(crate) fn fresh(last_clk: bool) -> (s: ReaderState)
    ensures
        s == ReaderState::fresh(last_clk),
{
    ReaderState { current_byte: 0, buf: [0, 0, 0], last_clk, bits_read: 0, state: State::Idle }
}

fn end_ack(s: ReaderState, io: &[Outcome], k: usize) -> (r: (ReaderState, Option<Turn<(), Error>>))
    requires
        s.wf(),
        k < 8,
    ensures
        r == s.end_ack(io@, k as int),
        r.0.wf(),
{
    match outcome(io, k) {
        None => (s, Some(Turn::Need(Op::Wait))),
        Some(Outcome::WouldBlock) => (s, Some(Turn::WouldBlock)),
        Some(Outcome::Done) => match outcome(io, k + 1) {
            None => (s, Some(Turn::Need(Op::Drive(Pin::Data, false)))),
            Some(o) => if !o.is_done() {
                (s, Some(Turn::Failed(Error::IOError)))
            } else {
                (fresh(s.last_clk), None)
            },
        },
        Some(_) => (s, Some(Turn::Failed(Error::TimerError))),
    }
}

fn shift_in(s: ReaderState, bit: bool) -> (r: ReaderState)
    requires
        s.wf(),
    ensures
        r == s.shift_in(bit),
        r.wf(),
{
    if s.bits_read < 8 {
        let mask: u8 = if bit {
            1u8 << s.bits_read
        } else {
            0
        };
        let mut buf: [u8; 3] = s.buf;
        buf[s.current_byte as usize] = buf[s.current_byte as usize] | mask;
        proof {
            assert(buf =~= with_byte(
                s.buf,
                s.current_byte,
                s.buf[s.current_byte as int] | mask,
            ));
        }
        ReaderState { buf, bits_read: s.bits_read + 1, ..s }
    } else {
        s
    }
}

fn byte_done(s: ReaderState, io: &[Outcome], k: usize) -> (r: Reading<Msg>)
    requires
        s.wf(),
        k < 8,
    ensures
        r == s.byte_done(io@, k as int),
        r.0.wf(),
{
    if s.bits_read == 8 {
        let timed = ReaderState { state: State::WaitAfterByte, ..s };
        match outcome(io, k) {
            None => (timed, Turn::Need(Op::StartMillis(RESYNC_TIMEOUT))),
            Some(o) => if !o.is_done() {
                (timed, Turn::Failed(Error::TimerError))
            } else if s.current_byte >= Msg::len_from_byte(s.buf[0]) - 1 {
                let msg = Msg::from_bytes(&s.buf);
                (
                    ReaderState { current_byte: 0, buf: [0, 0, 0], bits_read: 0, ..timed },
                    Turn::Done(msg),
                )
            } else {
                (
                    ReaderState { current_byte: (s.current_byte + 1) % 3, bits_read: 0, ..timed },
                    Turn::WouldBlock,
                )
            },
        }
    } else {
        (s, Turn::WouldBlock)
    }
}

fn falling_edge(s: ReaderState, io: &[Outcome], k: usize) -> (r: Reading<Msg>)
    requires
        s.wf(),
        k < 6,
    ensures
        r == s.falling_edge(io@, k as int),
        r.0.wf(),
{
    let timed = ReaderState { state: State::WaitAfterByte, ..s };
    let mut at = s;
    let mut k = k;
    if s.state == State::Idle {
        match outcome(io, k) {
            None => {
                return (timed, Turn::Need(Op::StartMillis(RESYNC_TIMEOUT)));
            },
            Some(o) => if !o.is_done() {
                return (timed, Turn::Failed(Error::TimerError));
            },
        }
        at = timed;
        k = k + 1;
    }
    match outcome(io, k) {
        None => (at, Turn::Need(Op::Sample(Pin::Data))),
        Some(o) => match o.level() {
            None => (at, Turn::Failed(Error::IOError)),
            Some(bit) => {
                let shifted = shift_in(at, bit);
                byte_done(ReaderState { last_clk: false, ..shifted }, io, k + 1)
            },
        },
    }
}

fn clock(s: ReaderState, io: &[Outcome], k: usize) -> (r: Reading<Msg>)
    requires
        s.wf(),
        k < 4,
    ensures
        r == s.clock(io@, k as int),
        r.0.wf(),
{
    match outcome(io, k) {
        None => (s, Turn::Need(Op::Sample(Pin::Clock))),
        Some(o) => match o.level() {
            None => (s, Turn::Failed(Error::IOError)),
            Some(clk) => if s.last_clk && !clk {
                falling_edge(s, io, k + 1)
            } else {
                byte_done(ReaderState { last_clk: clk, ..s }, io, k + 1)
            },
        },
    }
}

pub(crate) fn resync(s: ReaderState, io: &[Outcome], k: usize) -> (r: Reading<Msg>)
    requires
        s.wf(),
        k < 3,
    ensures
        r == s.resync(io@, k as int),
        r.0.wf(),
{
    if s.state == State::WaitAfterByte {
        match outcome(io, k) {
            None => (s, Turn::Need(Op::Wait)),
            Some(Outcome::Done) => clock(fresh(s.last_clk), io, k + 1),
            Some(_) => clock(s, io, k + 1),
        }
    } else {
        clock(s, io, k)
    }
}

/// The bus slave.
pub struct Reader {
    s: ReaderState,
}

impl View for Reader {
    type V = ReaderState;

    closed spec fn view(&self) -> ReaderState {
        self.s
    }
}

impl Reader {
    #[verifier::type_invariant]
    spec fn inv(self) -> bool {
        self.s.wf()
    }

    /// A slave that has seen nothing yet.  `last_clk` is the level of the
    /// clock line now, or `false` where it cannot be sampled.
    pub fn new(last_clk: bool) -> (reader: Reader)
        ensures
            reader@ == ReaderState::fresh(last_clk),
    {
        Reader { s: fresh(last_clk) }
    }

    /// The state of the slave.
    pub fn state(&self) -> (s: ReaderState)
        ensures
            s == self@,
            s.wf(),
    {
        proof {
            use_type_invariant(self);
        }
        self.s
    }

    /// Samples the clock once and takes in a bit on a falling edge.  The
    /// answer is `Done` with the message when its last bit has arrived.
    pub fn read(&mut self, io: &[Outcome]) -> (turn: Turn<Msg, Error>)
        ensures
            (final(self)@, turn) == old(self)@.read(io@),
    {
        proof {
            use_type_invariant(&*self);
        }
        let s = self.s;
        let (next, turn) = if s.state == State::WaitAcknowledge {
            match end_ack(s, io, 0) {
                (s, Some(Turn::Need(op))) => (s, Turn::Need(op)),
                (s, Some(Turn::Failed(e))) => (s, Turn::Failed(e)),
                (s, Some(_)) => (s, Turn::WouldBlock),
                (s, None) => resync(s, io, 2),
            }
        } else {
            resync(s, io, 0)
        };
        match turn {
            Turn::Need(_) => {},
            _ => {
                self.s = next;
            },
        }
        turn
    }

    /// Acknowledges the message that was read last by pulling the data line
    /// for the length of the acknowledge pulse.
    pub fn ack(&mut self, io: &[Outcome]) -> (turn: Turn<(), Error>)
        ensures
            (final(self)@, turn) == old(self)@.ack(io@),
    {
        proof {
            use_type_invariant(&*self);
        }
        let s = self.s;
        if s.state == State::WaitAcknowledge {
            match end_ack(s, io, 0) {
                (_, Some(turn)) => turn,
                (next, None) => {
                    self.s = next;
                    Turn::Done(())
                },
            }
        } else {
            match outcome(io, 0) {
                None => Turn::Need(Op::StartMillis(ACK_PULSE)),
                Some(o) => if !o.is_done() {
                    Turn::Failed(Error::TimerError)
                } else {
                    match outcome(io, 1) {
                        None => Turn::Need(Op::Drive(Pin::Data, true)),
                        Some(o) => if !o.is_done() {
                            Turn::Failed(Error::IOError)
                        } else {
                            self.s = ReaderState { state: State::WaitAcknowledge, ..s };
                            Turn::WouldBlock
                        },
                    }
                },
            }
        }
    }
}

/// When the resync timer has fired, a call of `read` goes on as the call of
/// a slave that has just been reset would: the byte index and the bit count
/// start from zero and the buffer is empty.
pub proof fn lemma_resync_resets(s: ReaderState, io: Seq<Outcome>)
    requires
        s.state == State::WaitAfterByte,
        io.len() >= 1,
        io[0] == Outcome::Done,
    ensures
        s.reset().current_byte == 0,
        s.reset().bits_read == 0,
        s.run(io) == s.reset().clock(io, 1),
        io.len() >= 2 && io[1].level() is Some && !(s.last_clk && io[1].level() == Some(false))
            ==> s.read(io).0 == ReaderState::fresh(io[1].level().unwrap()) && s.read(io).1
            == Turn::<Msg, Error>::WouldBlock,
{
}

/// A call of `read` asks for at most six operations, a call of `ack` for at
/// most two.
pub proof fn lemma_read_is_bounded(s: ReaderState, io: Seq<Outcome>)
    ensures
        io.len() >= 6 ==> !(s.read(io).1 is Need),
        io.len() >= 2 ==> !(s.ack(io).1 is Need),
{
}

/// The outcome of a sample that finds the level `high`.
pub open spec fn sampled(high: bool) -> Outcome {
    if high {
        Outcome::High
    } else {
        Outcome::Low
    }
}

impl ReaderState {
    /// The outcomes of a call of `read` in which nothing fails, the resync
    /// timer has not fired, the clock line is at `clk` and the data line at
    /// `data`.
    pub open spec fn quiet(self, clk: bool, data: bool) -> Seq<Outcome> {
        let wait = if self.state == State::WaitAfterByte {
            seq![Outcome::WouldBlock]
        } else {
            Seq::<Outcome>::empty()
        };
        let edge = if self.last_clk && !clk {
            if self.state == State::Idle {
                seq![Outcome::Done, sampled(data)]
            } else {
                seq![sampled(data)]
            }
        } else {
            Seq::<Outcome>::empty()
        };
        wait + seq![sampled(clk)] + edge + seq![Outcome::Done]
    }

    /// One clock period with `bit` on the data line: a call that finds the
    /// clock high and a call that finds it low, both quiet.
    pub open spec fn clocked(self, bit: bool) -> Reading<Msg> {
        let risen = self.read(self.quiet(true, bit)).0;
        risen.read(risen.quiet(false, bit))
    }

    /// The state after the first `n` bits of `bytes` have been clocked in,
    /// the lowest bit of each byte first.
    pub open spec fn after_bits(self, bytes: [u8; 3], n: nat) -> ReaderState
        decreases n,
    {
        if n == 0 {
            self
        } else {
            self.after_bits(bytes, (n - 1) as nat).clocked(wire_bit(bytes, n - 1)).0
        }
    }

    /// Whether the slave is ready for the first bit of a message: it is not
    /// acknowledging, it has nothing of a message, and it saw the clock
    /// low.
    pub open spec fn is_ready(self) -> bool {
        &&& self.state != State::WaitAcknowledge
        &&& self.current_byte == 0
        &&& self.bits_read == 0
        &&& self.buf[0] == 0 && self.buf[1] == 0 && self.buf[2] == 0
        &&& !self.last_clk
    }
}

/// Bit `n` of three bytes on the wire: bit `n % 8` of byte `n / 8`.
pub open spec fn wire_bit(bytes: [u8; 3], n: int) -> bool
    recommends
        0 <= n < 24,
{
    (bytes[n / 8] >> ((n % 8) as u8)) & 0x01 == 0x01
}

/// The three bytes that arrive when a message of the length that its first
/// byte tells is clocked out of `bytes`: the third byte stays zero in a
/// message of two.
pub open spec fn arriving(bytes: [u8; 3]) -> [u8; 3] {
    if length_of_command(bytes[0]) == 3 {
        bytes
    } else {
        [bytes[0], bytes[1], 0u8]
    }
}

/// The lowest `k` bits of `byte`.
spec fn low_bits(byte: u8, k: int) -> u8 {
    if k <= 0 {
        0
    } else {
        (byte << ((8 - k) as u8)) >> ((8 - k) as u8)
    }
}

proof fn lemma_low_bits(byte: u8, k: u8)
    by (bit_vector)
    requires
        k < 8,
    ensures
        (if k == 0 { 0u8 } else { (byte << ((8 - k) as u8)) >> ((8 - k) as u8) }) | (if (byte >> k)
            & 0x01 == 0x01 {
            1u8 << k
        } else {
            0u8
        }) == (byte << ((7 - k) as u8)) >> ((7 - k) as u8),
        (byte << 0u8) >> 0u8 == byte,
{
}

/// Whether `s` is the state of a slave that has taken in the first `n` bits
/// of `bytes`, with `n` short of a whole message.
spec fn filled(bytes: [u8; 3], n: int, s: ReaderState) -> bool {
    &&& s.current_byte == n / 8
    &&& s.bits_read == n % 8
    &&& !s.last_clk
    &&& if n == 0 {
        s.state != State::WaitAcknowledge
    } else {
        s.state == State::WaitAfterByte
    }
    &&& forall|j: int| 0 <= j < 3 ==> s.buf[j] == if j < n / 8 {
        bytes[j]
    } else if j == n / 8 {
        low_bits(bytes[j], n % 8)
    } else {
        0u8
    }
}

proof fn lemma_clocked_bit(bytes: [u8; 3], n: int, s: ReaderState)
    requires
        0 <= n < 8 * length_of_command(bytes[0]),
        filled(bytes, n, s),
    ensures
        n + 1 < 8 * length_of_command(bytes[0]) ==> filled(
            bytes,
            n + 1,
            s.clocked(wire_bit(bytes, n)).0,
        ) && s.clocked(wire_bit(bytes, n)).1 == Turn::<Msg, Error>::WouldBlock,
        n + 1 == 8 * length_of_command(bytes[0]) ==> s.clocked(wire_bit(bytes, n)).1
            == Turn::<Msg, Error>::Done(msg_parsed(arriving(bytes))) && s.clocked(
            wire_bit(bytes, n),
        ).0.is_ready(),
{
    let bit = wire_bit(bytes, n);
    let k = n % 8;
    let j = n / 8;
    lemma_low_bits(bytes[j], k as u8);
    let up_io = s.quiet(true, bit);
    let risen = s.read(up_io).0;
    assert(risen == ReaderState { last_clk: true, ..s }) by {
        if s.state == State::WaitAfterByte {
            assert(up_io[0] == Outcome::WouldBlock);
            assert(up_io[1] == sampled(true));
        } else {
            assert(up_io[0] == sampled(true));
        }
    }
    let down_io = risen.quiet(false, bit);
    let (next, turn) = risen.read(down_io);
    let timed = ReaderState { state: State::WaitAfterByte, ..risen };
    let shifted = ReaderState { last_clk: false, ..timed.shift_in(bit) };
    if risen.state == State::WaitAfterByte {
        assert(down_io[0] == Outcome::WouldBlock);
        assert(down_io[1] == sampled(false));
        assert(down_io[2] == sampled(bit));
        assert(down_io[3] == Outcome::Done);
        assert(risen.run(down_io) == shifted.byte_done(down_io, 3));
    } else {
        assert(down_io[0] == sampled(false));
        assert(down_io[1] == Outcome::Done);
        assert(down_io[2] == sampled(bit));
        assert(down_io[3] == Outcome::Done);
        assert(risen.run(down_io) == shifted.byte_done(down_io, 3));
    }
    assert(shifted.buf[j] == low_bits(bytes[j], k + 1) || (k == 7 && shifted.buf[j] == bytes[j]));
    if k == 7 {
        assert(shifted.buf[0] == bytes[0]);
        if n + 1 == 8 * length_of_command(bytes[0]) {
            assert(shifted.buf =~= arriving(bytes));
        }
    }
}

proof fn lemma_takes_in(s: ReaderState, bytes: [u8; 3], n: nat)
    requires
        s.is_ready(),
        n < 8 * length_of_command(bytes[0]),
    ensures
        filled(bytes, n as int, s.after_bits(bytes, n)),
    decreases n,
{
    if n > 0 {
        lemma_takes_in(s, bytes, (n - 1) as nat);
        lemma_clocked_bit(bytes, n - 1, s.after_bits(bytes, (n - 1) as nat));
    }
}

/// A slave that is ready and gets the bits of a message, clock period by
/// clock period without a pause, would block until the last bit of the
/// message, whose length the first byte tells, and with that bit gives out
/// the message read from the bytes; it is then ready for the next one.
pub proof fn lemma_reader_takes_in_message(s: ReaderState, bytes: [u8; 3], n: nat)
    requires
        s.is_ready(),
        n < 8 * length_of_command(bytes[0]),
    ensures
        n + 1 < 8 * length_of_command(bytes[0]) ==> s.after_bits(bytes, n).clocked(
            wire_bit(bytes, n as int),
        ).1 == Turn::<Msg, Error>::WouldBlock,
        n + 1 == 8 * length_of_command(bytes[0]) ==> s.after_bits(bytes, n).clocked(
            wire_bit(bytes, n as int),
        ).1 == Turn::<Msg, Error>::Done(msg_parsed(arriving(bytes))) && s.after_bits(
            bytes,
            n + 1,
        ).is_ready(),
{
    lemma_takes_in(s, bytes, n);
    lemma_clocked_bit(bytes, n as int, s.after_bits(bytes, n));
}

/// A slave that is ready and gets the bits of a canonical message other
/// than `Unknown` gives out that message with its last bit.
pub proof fn lemma_reader_reads_message(s: ReaderState, msg: Msg)
    requires
        s.is_ready(),
        !(msg is Unknown),
        crate::susi::message::is_canonical(msg),
    ensures
        s.after_bits(
            crate::susi::message::msg_bytes(msg),
            (8 * msg.spec_len() - 1) as nat,
        ).clocked(wire_bit(crate::susi::message::msg_bytes(msg), 8 * msg.spec_len() - 1)).1
            == Turn::<Msg, Error>::Done(msg),
{
    let bytes = crate::susi::message::msg_bytes(msg);
    crate::susi::message::lemma_length_in_first_byte(msg);
    crate::susi::message::lemma_msg_round_trip(msg);
    lemma_reader_takes_in_message(s, bytes, (8 * msg.spec_len() - 1) as nat);
    assert(arriving(bytes) =~= bytes);
}

/// The bit that the master puts on the data line is the bit that the slave
/// takes the level of the line for.
pub proof fn lemma_wire_bit_is_sent_bit(bytes: [u8; 3], n: u8)
    requires
        n < 24,
    ensures
        wire_bit(bytes, n as int) == crate::susi::writer::bit_at(bytes, n),
{
    let byte = bytes[(n / 8) as int];
    let k = (n % 8) as u8;
    assert(k < 8 ==> ((byte >> k) & 0x01 == 0x01 <==> byte & (1u8 << k) == (1u8 << k)))
        by (bit_vector);
}

} // verus!
