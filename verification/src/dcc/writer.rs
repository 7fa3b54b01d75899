//! The DCC packet writer and the half-bit encoder below it.
//!
//! A packet on the track is a preamble of ones, then for each byte a zero
//! and the eight bits of the byte, most significant first, then a closing
//! one.  A bit is two half-bits of equal length with a change of level after
//! each: short halves for a one, long halves for a zero.

use vstd::prelude::*;
use crate::dcc::Error;
use crate::dcc::message::Message;
use crate::host::{Op, Outcome, Pending, Pin, Poll, Turn, outcome, outcome_at};

verus! {

/// The capacity of the packet buffer, in bytes.
pub const BUF_SIZE: usize = 8;

/// The number of ones that open a packet.
pub const PREAMBLE_SIZE: u8 = 14;

/// The length of half a one bit, in microseconds.
pub const ONE_HALF_BIT: u32 = 58;

/// The length of half a zero bit, in microseconds.
pub const ZERO_HALF_BIT: u32 = 100;

/// A bit on the track.
#[derive(Clone, Copy, Debug, PartialEq, Eq, Structural)]
pub enum Bit {
    Zero,
    One,
}

impl Bit {
    /// The length of one half of the bit, in microseconds.
    pub open spec fn spec_half(self) -> u32 {
        match self {
            Bit::One => ONE_HALF_BIT,
            Bit::Zero => ZERO_HALF_BIT,
        }
    }

    #[verifier::when_used_as_spec(spec_half)]
    pub fn half(self) -> (us: u32)
        ensures
            us == self.spec_half(),
    {
        match self {
            Bit::One => ONE_HALF_BIT,
            Bit::Zero => ZERO_HALF_BIT,
        }
    }
}

/// Something that can put one bit on the track.  A call does a bounded
/// amount of work; it is repeated with the same bit until it returns `Ok`.
pub trait Encoder {
    fn write(&mut self, bit: Bit) -> Poll<(), Error>;
}

/// Where the half-bit encoder is in a bit.
#[derive(Clone, Copy, Debug, PartialEq, Eq, Structural)]
pub enum EncoderState {
    /// Between bits.
    Idle,
    /// The first half of the bit is running.
    WritingFirstHalf,
    /// The second half of the bit is running.
    WritingSecondHalf,
}

/// The answer of a call of the encoder and the state that goes with it.
pub type Encoding = (EncoderState, Turn<(), Error>);

impl EncoderState {
    /// The end of a half: once its time is over the line is toggled.  After
    /// the first half the second is armed; after the second the bit is done.
    pub open spec fn half_over(self, bit: Bit, io: Seq<Outcome>) -> Encoding {
        match outcome_at(io, 0) {
            None => (self, Turn::Need(Op::Wait)),
            Some(Outcome::WouldBlock) => (self, Turn::WouldBlock),
            Some(Outcome::Done) => match outcome_at(io, 1) {
                None => (self, Turn::Need(Op::Toggle(Pin::Track))),
                Some(o) => if !o.is_done() {
                    (self, Turn::Failed(Error::IOError))
                } else if self == EncoderState::WritingSecondHalf {
                    (EncoderState::Idle, Turn::Done(()))
                } else {
                    match outcome_at(io, 2) {
                        None => (self, Turn::Need(Op::StartMicros(bit.half()))),
                        Some(o) => if !o.is_done() {
                            (EncoderState::WritingSecondHalf, Turn::Failed(Error::DelayError))
                        } else {
                            (EncoderState::WritingSecondHalf, Turn::WouldBlock)
                        },
                    }
                },
            },
            Some(_) => (self, Turn::Failed(Error::DelayError)),
        }
    }

    /// One call of the encoder for `bit`.  Between bits it arms the first
    /// half without touching the line, which rests at the level that the
    /// last bit left.  No call toggles the line or starts the timer more
    /// than once.  While an operation is needed the state does not change.
    pub open spec fn write(self, bit: Bit, io: Seq<Outcome>) -> Encoding {
        match self {
            EncoderState::Idle => match outcome_at(io, 0) {
                None => (self, Turn::Need(Op::StartMicros(bit.half()))),
                Some(o) => if !o.is_done() {
                    (self, Turn::Failed(Error::DelayError))
                } else {
                    (EncoderState::WritingFirstHalf, Turn::WouldBlock)
                },
            },
            _ => self.half_over(bit, io),
        }
    }
}

/// The half-bit encoder for a track pin and a microsecond timer.
pub struct PinEncoder {
    state: EncoderState,
}

impl View for PinEncoder {
    type V = EncoderState;

    closed spec fn view(&self) -> EncoderState {
        self.state
    }
}

impl PinEncoder {
    pub fn new() -> (encoder: PinEncoder)
        ensures
            encoder@ == EncoderState::Idle,
    {
        PinEncoder { state: EncoderState::Idle }
    }

    /// The state of the encoder.
    pub fn state(&self) -> (s: EncoderState)
        ensures
            s == self@,
    {
        self.state
    }

    /// Advances the emission of `bit` by one call.
    pub fn write(&mut self, bit: Bit, io: &[Outcome]) -> (turn: Turn<(), Error>)
        ensures
            (final(self)@, turn) == old(self)@.write(bit, io@),
    {
        match self.state {
            EncoderState::Idle => match outcome(io, 0) {
                None => Turn::Need(Op::StartMicros(bit.half())),
                Some(o) => if !o.is_done() {
                    Turn::Failed(Error::DelayError)
                } else {
                    self.state = EncoderState::WritingFirstHalf;
                    Turn::WouldBlock
                },
            },
            _ => match outcome(io, 0) {
                None => Turn::Need(Op::Wait),
                Some(Outcome::WouldBlock) => Turn::WouldBlock,
                Some(Outcome::Done) => match outcome(io, 1) {
                    None => Turn::Need(Op::Toggle(Pin::Track)),
                    Some(o) => if !o.is_done() {
                        Turn::Failed(Error::IOError)
                    } else if self.state == EncoderState::WritingSecondHalf {
                        self.state = EncoderState::Idle;
                        Turn::Done(())
                    } else {
                        match outcome(io, 2) {
                            None => Turn::Need(Op::StartMicros(bit.half())),
                            Some(o) => {
                                self.state = EncoderState::WritingSecondHalf;
                                if !o.is_done() {
                                    Turn::Failed(Error::DelayError)
                                } else {
                                    Turn::WouldBlock
                                }
                            },
                        }
                    },
                },
                Some(_) => Turn::Failed(Error::DelayError),
            },
        }
    }
}

/// Bit `k` of `byte`, counting from the most significant bit.
pub open spec fn msb_bit(byte: u8, k: int) -> Bit
    recommends
        0 <= k < 8,
{
    if (byte >> ((7 - k) as u8)) & 0x01 == 0x01 {
        Bit::One
    } else {
        Bit::Zero
    }
}

/// The bits of a packet with the bytes `bytes`: the preamble of ones, a
/// zero and eight bits for each byte, and the closing one.
pub open spec fn packet_bits(bytes: Seq<u8>) -> Seq<Bit> {
    Seq::new(
        (PREAMBLE_SIZE + 9 * bytes.len() + 1) as nat,
        |i: int|
            if i < PREAMBLE_SIZE || i == PREAMBLE_SIZE + 9 * bytes.len() {
                Bit::One
            } else if (i - PREAMBLE_SIZE) % 9 == 0 {
                Bit::Zero
            } else {
                msb_bit(bytes[(i - PREAMBLE_SIZE) / 9], (i - PREAMBLE_SIZE) % 9 - 1)
            },
    )
}

/// Every packet begins with exactly fourteen ones followed by a zero, and
/// ends with a one.
pub proof fn lemma_preamble(bytes: Seq<u8>)
    requires
        bytes.len() >= 1,
    ensures
        forall|i: int| 0 <= i < 14 ==> packet_bits(bytes)[i] == Bit::One,
        packet_bits(bytes)[14] == Bit::Zero,
        packet_bits(bytes).last() == Bit::One,
        packet_bits(bytes).len() == 15 + 9 * bytes.len(),
{
}

/// Where the packet writer is in a packet.
#[derive(Clone, Copy, Debug, PartialEq, Eq, Structural)]
pub enum Phase {
    /// No packet is under way.
    Idle,
    /// So many ones of the preamble are still to go.
    Preamble(u8),
    /// The zero before a byte is going out.
    Zero,
    /// A bit of a byte is going out.
    Writing(Bit),
    /// The closing one is going out.
    End,
}

/// The state of the packet writer.
#[derive(Clone, Copy, Debug, PartialEq, Eq)]
pub struct WriterState {
    /// The bytes of the packet under way.
    pub buf: [u8; 8],
    /// How many bytes the packet has.
    pub bytes_to_write: usize,
    /// How many bits of the bytes are out.
    pub bits_written: usize,
    pub phase: Phase,
}

impl WriterState {
    /// The bytes of the packet under way.
    pub open spec fn bytes(self) -> Seq<u8> {
        self.buf@.take(self.bytes_to_write as int)
    }

    /// The bit of the bytes that goes out next.
    pub open spec fn data_bit(self) -> Bit {
        msb_bit(self.buf[(self.bits_written / 8) as int], (self.bits_written % 8) as int)
    }

    /// What holds of every state that the writer reaches.
    pub open spec fn wf(self) -> bool {
        &&& 1 <= self.bytes_to_write <= BUF_SIZE
        &&& match self.phase {
            Phase::Idle => true,
            Phase::Preamble(left) => 1 <= left <= PREAMBLE_SIZE && self.bits_written == 0,
            Phase::Zero => self.bits_written % 8 == 0 && self.bits_written < 8
                * self.bytes_to_write,
            Phase::Writing(bit) => self.bits_written < 8 * self.bytes_to_write && bit
                == self.data_bit(),
            Phase::End => self.bits_written == 8 * self.bytes_to_write,
        }
    }

    /// The state in which nothing is under way.
    pub open spec fn idle() -> WriterState {
        WriterState {
            buf: [0u8, 0u8, 0u8, 0u8, 0u8, 0u8, 0u8, 0u8],
            bytes_to_write: 1,
            bits_written: 0,
            phase: Phase::Idle,
        }
    }

    /// Whether `self` is the state in which `msg` has just been taken up:
    /// the buffer holds the bytes of its packet and zeros after them, and
    /// the preamble is to go out in full.
    pub open spec fn holds(self, msg: Message) -> bool {
        &&& self.bytes_to_write == msg.wire().len()
        &&& self.bytes() == msg.wire()
        &&& forall|i: int| self.bytes_to_write <= i < BUF_SIZE ==> self.buf[i] == 0
        &&& self.bits_written == 0
        &&& self.phase == Phase::Preamble(PREAMBLE_SIZE)
    }

    /// The index in the packet of the bit that goes out next.
    pub open spec fn position(self) -> int
        recommends
            self.phase != Phase::Idle,
    {
        match self.phase {
            Phase::Idle => 0,
            Phase::Preamble(left) => PREAMBLE_SIZE - left,
            Phase::Zero => PREAMBLE_SIZE + 9 * (self.bits_written / 8),
            Phase::Writing(_) => PREAMBLE_SIZE + 9 * (self.bits_written / 8) + 1
                + self.bits_written % 8,
            Phase::End => PREAMBLE_SIZE + 9 * self.bytes_to_write,
        }
    }

    /// The bit that is handed to the encoder in this state.
    pub open spec fn spec_bit(self) -> Bit
        recommends
            self.phase != Phase::Idle,
    {
        match self.phase {
            Phase::Zero => Bit::Zero,
            Phase::Writing(bit) => bit,
            _ => Bit::One,
        }
    }

    /// The state after the encoder has put the current bit on the track.
    /// After the last one of the preamble and after the eighth bit of a byte
    /// a zero follows, or the closing one after the last byte; after the
    /// closing one the writer is idle.
    pub open spec fn emitted(self) -> WriterState
        recommends
            self.phase != Phase::Idle,
    {
        match self.phase {
            Phase::Idle => self,
            Phase::Preamble(left) => if left <= 1 {
                WriterState { phase: Phase::Zero, ..self }
            } else {
                WriterState { phase: Phase::Preamble((left - 1) as u8), ..self }
            },
            Phase::Zero => WriterState { phase: Phase::Writing(self.data_bit()), ..self },
            Phase::Writing(_) => {
                let next = WriterState { bits_written: (self.bits_written + 1) as usize, ..self };
                if next.bits_written == 8 * self.bytes_to_write {
                    WriterState { phase: Phase::End, ..next }
                } else if next.bits_written % 8 == 0 {
                    WriterState { phase: Phase::Zero, ..next }
                } else {
                    WriterState { phase: Phase::Writing(next.data_bit()), ..next }
                }
            },
            Phase::End => WriterState { phase: Phase::Idle, ..self },
        }
    }

    /// The state and the answer of the writer after the encoder answered
    /// `result` for the current bit: the packet is done when the closing one
    /// is out; an error of the encoder is passed on; in every other case the
    /// call has to be repeated.
    pub open spec fn advance(self, result: Poll<(), Error>) -> (WriterState, Poll<(), Error>)
        recommends
            self.phase != Phase::Idle,
    {
        match result {
            Ok(()) => (
                self.emitted(),
                if self.phase == Phase::End {
                    Ok(())
                } else {
                    Err(Pending::WouldBlock)
                },
            ),
            Err(e) => (self, Err(e)),
        }
    }
}

/// The packet writer does its work through the preamble, the bytes and the
/// closing one in the order of `packet_bits`: in every state in which a
/// packet is under way the bit handed to the encoder is the bit of the
/// packet at the writer's position, and when the encoder is done with it
/// the position moves on by one, until the last bit leaves the writer idle.
pub proof fn lemma_writer_follows_packet(s: WriterState)
    requires
        s.wf(),
        s.phase != Phase::Idle,
    ensures
        0 <= s.position() < packet_bits(s.bytes()).len(),
        s.spec_bit() == packet_bits(s.bytes())[s.position()],
        s.emitted().wf(),
        s.emitted().bytes() == s.bytes(),
        s.phase == Phase::End <==> s.position() == packet_bits(s.bytes()).len() - 1,
        s.phase == Phase::End <==> s.emitted().phase == Phase::Idle,
        s.phase != Phase::End ==> s.emitted().position() == s.position() + 1,
{
    let bytes = s.bytes();
    let n = s.bits_written as int;
    match s.phase {
        Phase::Writing(_) => {
            assert(bytes[n / 8] == s.buf[n / 8]);
        },
        _ => {},
    }
}

/// A writer that has just taken up a message is at the start of the packet
/// of that message.
pub proof fn lemma_writer_starts_packet(s: WriterState, msg: Message)
    requires
        s.holds(msg),
        msg is Drive,
    ensures
        s.position() == 0,
        packet_bits(s.bytes()) == packet_bits(msg.wire()),
{
}

impl WriterState {
    /// Whether `start` is the state from which a call with `msg` goes on: an
    /// idle writer takes the message up, a busy one stays as it is.
    pub open spec fn begins(self, msg: Message, start: WriterState) -> bool {
        if self.phase == Phase::Idle {
            start.holds(msg) && start.wf()
        } else {
            start == self
        }
    }

    /// The state in which `msg` has just been taken up.
    pub fn load(msg: &Message) -> (s: WriterState)
        requires
            *msg is Drive,
        ensures
            s.holds(*msg),
            s.wf(),
    {
        let mut buf: [u8; 8] = [0, 0, 0, 0, 0, 0, 0, 0];
        let n: usize = msg.to_buf(&mut buf);
        proof {
            assert forall|i: int| n <= i < BUF_SIZE implies buf[i] == 0 by {
                assert(buf@.skip(n as int)[i - n] == 0);
            }
        }
        WriterState {
            buf,
            bytes_to_write: n,
            bits_written: 0,
            phase: Phase::Preamble(PREAMBLE_SIZE),
        }
    }

    fn next_data_bit(&self) -> (bit: Bit)
        requires
            self.bits_written < 8 * BUF_SIZE,
        ensures
            bit == self.data_bit(),
    {
        let byte: u8 = self.buf[self.bits_written / 8];
        let shift: u8 = (7 - self.bits_written % 8) as u8;
        if (byte >> shift) & 0x01 == 0x01 {
            Bit::One
        } else {
            Bit::Zero
        }
    }

    /// The bit that is handed to the encoder in this state.
    pub fn bit(self) -> (bit: Bit)
        ensures
            bit == self.spec_bit(),
    {
        match self.phase {
            Phase::Zero => Bit::Zero,
            Phase::Writing(bit) => bit,
            _ => Bit::One,
        }
    }

    /// Takes the answer of the encoder for the current bit and gives the
    /// next state and the answer of the writer.
    pub fn step(self, result: Poll<(), Error>) -> (r: (WriterState, Poll<(), Error>))
        requires
            self.wf(),
        ensures
            r == self.advance(result),
            r.0.wf(),
    {
        match result {
            Ok(()) => {
                let next = match self.phase {
                    Phase::Idle => self,
                    Phase::Preamble(left) => if left <= 1 {
                        WriterState { phase: Phase::Zero, ..self }
                    } else {
                        WriterState { phase: Phase::Preamble(left - 1), ..self }
                    },
                    Phase::Zero => WriterState { phase: Phase::Writing(self.next_data_bit()), ..self },
                    Phase::Writing(_) => {
                        let next = WriterState { bits_written: self.bits_written + 1, ..self };
                        if next.bits_written == 8 * self.bytes_to_write {
                            WriterState { phase: Phase::End, ..next }
                        } else if next.bits_written % 8 == 0 {
                            WriterState { phase: Phase::Zero, ..next }
                        } else {
                            WriterState { phase: Phase::Writing(next.next_data_bit()), ..next }
                        }
                    },
                    Phase::End => WriterState { phase: Phase::Idle, ..self },
                };
                let done = match self.phase {
                    Phase::End => Ok(()),
                    _ => Err(Pending::WouldBlock),
                };
                (next, done)
            },
            Err(e) => (self, Err(e)),
        }
    }
}

/// The packet layer on its own: the state of a packet on its way out, to be
/// driven by whatever puts the bits on the track.
pub struct Packet {
    s: WriterState,
}

impl View for Packet {
    type V = WriterState;

    closed spec fn view(&self) -> WriterState {
        self.s
    }
}

impl Packet {
    #[verifier::type_invariant]
    spec fn inv(self) -> bool {
        self.s.wf()
    }

    pub fn new() -> (packet: Packet)
        ensures
            packet@ == WriterState::idle(),
    {
        Packet {
            s: WriterState {
                buf: [0, 0, 0, 0, 0, 0, 0, 0],
                bytes_to_write: 1,
                bits_written: 0,
                phase: Phase::Idle,
            },
        }
    }

    /// The state of the packet layer.
    pub fn state(&self) -> (s: WriterState)
        ensures
            s == self@,
            s.wf(),
    {
        proof {
            use_type_invariant(self);
        }
        self.s
    }

    /// Takes `msg` up if nothing is under way, and gives the bit that is to
    /// go out next.
    pub fn begin(&mut self, msg: &Message) -> (bit: Bit)
        requires
            *msg is Drive,
        ensures
            old(self)@.begins(*msg, final(self)@),
            bit == final(self)@.spec_bit(),
            final(self)@.wf(),
    {
        proof {
            use_type_invariant(&*self);
        }
        match self.s.phase {
            Phase::Idle => {
                self.s = WriterState::load(msg);
            },
            _ => {},
        }
        self.s.bit()
    }

    /// Takes the answer of the encoder for the current bit and gives the
    /// answer of the writer.
    pub fn advance(&mut self, result: Poll<(), Error>) -> (r: Poll<(), Error>)
        ensures
            (final(self)@, r) == old(self)@.advance(result),
            final(self)@.wf(),
    {
        proof {
            use_type_invariant(&*self);
        }
        let (next, r) = self.s.step(result);
        self.s = next;
        r
    }
}

/// The packet writer over any encoder.
pub struct Writer<E: Encoder> {
    encoder: E,
    packet: Packet,
}

impl<E: Encoder> View for Writer<E> {
    type V = WriterState;

    closed spec fn view(&self) -> WriterState {
        self.packet@
    }
}

impl<E: Encoder> Writer<E> {
    pub fn new(encoder: E) -> (writer: Writer<E>)
        ensures
            writer@ == WriterState::idle(),
    {
        Writer { encoder, packet: Packet::new() }
    }

    /// The state of the writer.
    pub fn state(&self) -> (s: WriterState)
        ensures
            s == self@,
            s.wf(),
    {
        self.packet.state()
    }

    /// Advances the packet of `msg` by one call of the encoder.  An idle
    /// writer takes the message up first.  The caller passes the same
    /// message until the answer is `Ok`, which comes with the closing bit.
    pub fn write(&mut self, msg: &Message) -> (r: Poll<(), Error>)
        requires
            *msg is Drive,
        ensures
            exists|start: WriterState, answer: Poll<(), Error>|
                old(self)@.begins(*msg, start) && (final(self)@, r) == #[trigger] start.advance(
                    answer,
                ),
            final(self)@.wf(),
    {
        let bit = self.packet.begin(msg);
        let ghost start = self.packet@;
        let answer = self.encoder.write(bit);
        let ghost given = answer;
        let r = self.packet.advance(answer);
        proof {
            assert((self@, r) == start.advance(given));
        }
        r
    }
}

/// The state of the packet writer together with its half-bit encoder.
#[derive(Clone, Copy, Debug, PartialEq, Eq)]
pub struct PinWriterState {
    pub encoder: EncoderState,
    pub writer: WriterState,
}

impl PinWriterState {
    /// One call of the writer from the state `start` of the packet layer:
    /// the encoder is called for the current bit, and its answer advances
    /// the packet.  While an operation is needed nothing changes.
    pub open spec fn write_from(self, start: WriterState, io: Seq<Outcome>) -> (
        PinWriterState,
        Turn<(), Error>,
    ) {
        let (encoder, turn) = self.encoder.write(start.spec_bit(), io);
        match turn {
            Turn::Need(op) => (self, Turn::Need(op)),
            Turn::Done(()) => (
                PinWriterState { encoder, writer: start.emitted() },
                if start.phase == Phase::End {
                    Turn::Done(())
                } else {
                    Turn::WouldBlock
                },
            ),
            Turn::WouldBlock => (PinWriterState { encoder, writer: start }, Turn::WouldBlock),
            Turn::Failed(e) => (PinWriterState { encoder, writer: start }, Turn::Failed(e)),
        }
    }
}

/// The packet writer for a track pin and a microsecond timer.
pub struct PinWriter {
    encoder: PinEncoder,
    packet: Packet,
}

impl View for PinWriter {
    type V = PinWriterState;

    closed spec fn view(&self) -> PinWriterState {
        PinWriterState { encoder: self.encoder@, writer: self.packet@ }
    }
}

impl PinWriter {
    pub fn new() -> (writer: PinWriter)
        ensures
            writer@ == (PinWriterState {
                encoder: EncoderState::Idle,
                writer: WriterState::idle(),
            }),
    {
        PinWriter { encoder: PinEncoder::new(), packet: Packet::new() }
    }

    /// The state of the writer and of its encoder.
    pub fn state(&self) -> (s: PinWriterState)
        ensures
            s == self@,
            s.writer.wf(),
    {
        PinWriterState { encoder: self.encoder.state(), writer: self.packet.state() }
    }

    /// Advances the packet of `msg` by one call: at most one change of the
    /// track level and one timer start.
    pub fn write(&mut self, msg: &Message, io: &[Outcome]) -> (turn: Turn<(), Error>)
        requires
            *msg is Drive,
        ensures
            exists|start: WriterState|
                old(self)@.writer.begins(*msg, start) && (final(self)@, turn) == #[trigger] old(
                    self,
                )@.write_from(start, io@),
            final(self)@.writer.wf(),
    {
        let mut packet = Packet { s: self.packet.state() };
        let bit = packet.begin(msg);
        let ghost start = packet@;
        let mut encoder = PinEncoder { state: self.encoder.state };
        let turn = match encoder.write(bit, io) {
            Turn::Need(op) => Turn::Need(op),
            Turn::Done(()) => {
                let r = packet.advance(Ok(()));
                self.encoder = encoder;
                self.packet = packet;
                match r {
                    Ok(()) => Turn::Done(()),
                    Err(_) => Turn::WouldBlock,
                }
            },
            Turn::WouldBlock => {
                self.encoder = encoder;
                self.packet = packet;
                Turn::WouldBlock
            },
            Turn::Failed(e) => {
                self.encoder = encoder;
                self.packet = packet;
                Turn::Failed(e)
            },
        };
        proof {
            assert((self@, turn) == old(self)@.write_from(start, io@));
        }
        turn
    }
}

/// A call of the encoder asks for at most three operations: one wait, one
/// toggle and one timer start.
pub proof fn lemma_encoder_is_bounded(s: EncoderState, bit: Bit, io: Seq<Outcome>)
    requires
        io.len() >= 3,
    ensures
        !(s.write(bit, io).1 is Need),
{
}

/// A call of the pin writer asks for no more operations than the encoder
/// does.
pub proof fn lemma_pin_writer_is_bounded(s: PinWriterState, start: WriterState, io: Seq<Outcome>)
    requires
        io.len() >= 3,
    ensures
        !(s.write_from(start, io).1 is Need),
{
}

/// A bit takes three calls whose timer waits are over: the first arms a
/// half without touching the line, the second toggles the line and arms
/// the other half, the third toggles the line and is done.  Both halves
/// have the length that the bit asks for, and while the timer runs a call
/// changes nothing.
pub proof fn lemma_encoder_emits_bit(bit: Bit)
    ensures
        EncoderState::Idle.write(bit, Seq::empty()).1 == Turn::<(), Error>::Need(
            Op::StartMicros(bit.spec_half()),
        ),
        EncoderState::Idle.write(bit, seq![Outcome::Done]) == (
            EncoderState::WritingFirstHalf,
            Turn::<(), Error>::WouldBlock,
        ),
        EncoderState::WritingFirstHalf.write(bit, seq![Outcome::WouldBlock]) == (
            EncoderState::WritingFirstHalf,
            Turn::<(), Error>::WouldBlock,
        ),
        EncoderState::WritingFirstHalf.write(bit, seq![Outcome::Done]).1 == Turn::<
            (),
            Error,
        >::Need(Op::Toggle(Pin::Track)),
        EncoderState::WritingFirstHalf.write(bit, seq![Outcome::Done, Outcome::Done]).1
            == Turn::<(), Error>::Need(Op::StartMicros(bit.spec_half())),
        EncoderState::WritingFirstHalf.write(
            bit,
            seq![Outcome::Done, Outcome::Done, Outcome::Done],
        ) == (EncoderState::WritingSecondHalf, Turn::<(), Error>::WouldBlock),
        EncoderState::WritingSecondHalf.write(bit, seq![Outcome::WouldBlock]) == (
            EncoderState::WritingSecondHalf,
            Turn::<(), Error>::WouldBlock,
        ),
        EncoderState::WritingSecondHalf.write(bit, seq![Outcome::Done]).1 == Turn::<
            (),
            Error,
        >::Need(Op::Toggle(Pin::Track)),
        EncoderState::WritingSecondHalf.write(bit, seq![Outcome::Done, Outcome::Done]) == (
            EncoderState::Idle,
            Turn::<(), Error>::Done(()),
        ),
{
    let one = seq![Outcome::Done];
    let two = seq![Outcome::Done, Outcome::Done];
    let three = seq![Outcome::Done, Outcome::Done, Outcome::Done];
    let blocked = seq![Outcome::WouldBlock];
    assert(one[0] == Outcome::Done);
    assert(two[0] == Outcome::Done && two[1] == Outcome::Done);
    assert(three[0] == Outcome::Done && three[1] == Outcome::Done && three[2] == Outcome::Done);
    assert(blocked[0] == Outcome::WouldBlock);
}

} // verus!
