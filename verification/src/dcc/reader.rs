//! The DCC packet reader and the half-bit decoder below it.

use vstd::prelude::*;
use vstd::slice::slice_subrange;
use crate::base::xor_all;
use crate::dcc::Error;
use crate::dcc::message::{Message, is_complete, message_parsed};
use crate::dcc::writer::Bit;
use crate::host::{Op, Outcome, Pending, Pin, Poll, Turn, outcome, outcome_at};

verus! {

/// The capacity of the packet buffer, in bytes.
pub const BUF_SIZE: usize = 8;

/// The time from an edge after which a half-bit counts as long, in
/// microseconds.
pub const TIMEOUT_ONE: u32 = 73;

/// The number of ones that a preamble must have at least.
pub const PREAMBLE_MIN: u8 = 10;

/// Something that can take one bit from the track.  A call does a bounded
/// amount of work; it is repeated until it returns `Ok`.
pub trait Decoder {
    fn read(&mut self) -> Poll<Bit, Error>;
}

/// What the half-bit decoder remembers.
#[derive(Clone, Copy, Debug, PartialEq, Eq, Structural)]
pub struct DecoderState {
    /// The level of the track at the last sample, if there was one.
    pub last_level: Option<bool>,
    /// The first half of a bit, if one is waiting for its second half.
    pub last_half: Option<Bit>,
}

impl DecoderState {
    /// The state of a decoder that has not sampled the track yet.
    pub open spec fn fresh() -> DecoderState {
        DecoderState { last_level: None, last_half: None }
    }

    /// A half-bit after an edge: two equal halves in a row make a bit and
    /// clear the memory; any other half becomes the memory.
    pub open spec fn pair(self, level: bool, half: Bit) -> (DecoderState, Turn<Bit, Error>) {
        if self.last_half == Some(half) {
            (DecoderState { last_level: Some(level), last_half: None }, Turn::Done(half))
        } else {
            (DecoderState { last_level: Some(level), last_half: Some(half) }, Turn::WouldBlock)
        }
    }

    /// One call of the decoder.  The track is sampled.  A level other than
    /// the last one is an edge: the half that ends with it is long, a zero,
    /// if the timer has fired, and short, a one, if it has not; the timer is
    /// started again.  Without an edge the call would block.  A call that
    /// fails, or that needs an operation, leaves the decoder as it was.
    pub open spec fn read(self, io: Seq<Outcome>) -> (DecoderState, Turn<Bit, Error>) {
        match outcome_at(io, 0) {
            None => (self, Turn::Need(Op::Sample(Pin::Track))),
            Some(o) => match o.level() {
                None => (self, Turn::Failed(Error::IOError)),
                Some(level) => if self.last_level is None {
                    (DecoderState { last_level: Some(level), ..self }, Turn::WouldBlock)
                } else if self.last_level == Some(level) {
                    (self, Turn::WouldBlock)
                } else {
                    match outcome_at(io, 1) {
                        None => (self, Turn::Need(Op::Wait)),
                        Some(Outcome::Done) | Some(Outcome::WouldBlock) => match outcome_at(
                            io,
                            2,
                        ) {
                            None => (self, Turn::Need(Op::StartMicros(TIMEOUT_ONE))),
                            Some(o) => if !o.is_done() {
                                (self, Turn::Failed(Error::DelayError))
                            } else {
                                self.pair(
                                    level,
                                    if io[1] == Outcome::Done {
                                        Bit::Zero
                                    } else {
                                        Bit::One
                                    },
                                )
                            },
                        },
                        Some(_) => (self, Turn::Failed(Error::DelayError)),
                    }
                },
            },
        }
    }
}

/// The half-bit decoder for a track pin and a microsecond timer.
pub struct PinDecoder {
    state: DecoderState,
}

impl View for PinDecoder {
    type V = DecoderState;

    closed spec fn view(&self) -> DecoderState {
        self.state
    }
}

impl PinDecoder {
    pub fn new() -> (decoder: PinDecoder)
        ensures
            decoder@ == DecoderState::fresh(),
    {
        PinDecoder { state: DecoderState { last_level: None, last_half: None } }
    }

    /// The state of the decoder.
    pub fn state(&self) -> (s: DecoderState)
        ensures
            s == self@,
    {
        self.state
    }

    /// Samples the track once and gives a bit when an edge completes one.
    pub fn read(&mut self, io: &[Outcome]) -> (turn: Turn<Bit, Error>)
        ensures
            (final(self)@, turn) == old(self)@.read(io@),
    {
        let s = self.state;
        match outcome(io, 0) {
            None => Turn::Need(Op::Sample(Pin::Track)),
            Some(o) => match o.level() {
                None => Turn::Failed(Error::IOError),
                Some(level) => match s.last_level {
                    None => {
                        self.state = DecoderState { last_level: Some(level), ..s };
                        Turn::WouldBlock
                    },
                    Some(last) => if last == level {
                        Turn::WouldBlock
                    } else {
                        let half = match outcome(io, 1) {
                            None => {
                                return Turn::Need(Op::Wait);
                            },
                            Some(Outcome::Done) => Bit::Zero,
                            Some(Outcome::WouldBlock) => Bit::One,
                            Some(_) => {
                                return Turn::Failed(Error::DelayError);
                            },
                        };
                        match outcome(io, 2) {
                            None => Turn::Need(Op::StartMicros(TIMEOUT_ONE)),
                            Some(o) => if !o.is_done() {
                                Turn::Failed(Error::DelayError)
                            } else {
                                let paired = match s.last_half {
                                    Some(other) => other == half,
                                    None => false,
                                };
                                if paired {
                                    self.state = DecoderState {
                                        last_level: Some(level),
                                        last_half: None,
                                    };
                                    Turn::Done(half)
                                } else {
                                    self.state = DecoderState {
                                        last_level: Some(level),
                                        last_half: Some(half),
                                    };
                                    Turn::WouldBlock
                                }
                            },
                        }
                    },
                },
            },
        }
    }
}

/// Where the packet reader is in a packet.
#[derive(Clone, Copy, Debug, PartialEq, Eq, Structural)]
pub enum Phase {
    /// Waiting for a preamble.
    Idle,
    /// Taking in the bits of a byte.
    Byte,
    /// Waiting for the bit after a byte.
    StartBit,
}

/// The state of the packet reader.
#[derive(Clone, Copy, Debug, PartialEq, Eq)]
pub struct ReaderState {
    /// The bytes of the packet that is arriving.
    pub buf: [u8; 8],
    /// How many bytes have arrived in full.
    pub count: usize,
    /// How many bits of the current byte have arrived.
    pub bits: u8,
    /// The bits of the current byte, the first one highest.
    pub byte: u8,
    /// How many ones have arrived in a row, counted up to `PREAMBLE_MIN`.
    pub ones: u8,
    pub phase: Phase,
}

/// The message in the bytes of a packet, if the XOR of all bytes is zero and
/// the bytes before the last hold a whole message.
pub open spec fn accepted(bytes: Seq<u8>) -> Option<Message> {
    if bytes.len() >= 1 && xor_all(bytes) == 0 && is_complete(bytes.drop_last()) {
        Some(message_parsed(bytes.drop_last()))
    } else {
        None
    }
}

/// `buf` with `value` in place of the byte at `index`.
pub open spec fn with_byte(buf: [u8; 8], index: int, value: u8) -> [u8; 8] {
    [
        if index == 0 { value } else { buf[0] },
        if index == 1 { value } else { buf[1] },
        if index == 2 { value } else { buf[2] },
        if index == 3 { value } else { buf[3] },
        if index == 4 { value } else { buf[4] },
        if index == 5 { value } else { buf[5] },
        if index == 6 { value } else { buf[6] },
        if index == 7 { value } else { buf[7] },
    ]
}

impl ReaderState {
    /// What holds of every state that the reader reaches.
    pub open spec fn wf(self) -> bool {
        &&& self.count <= BUF_SIZE
        &&& self.bits < 8
        &&& self.ones <= PREAMBLE_MIN
        &&& (self.phase == Phase::Byte ==> self.count < BUF_SIZE)
        &&& (self.phase == Phase::StartBit ==> self.count >= 1)
    }

    /// The state of a reader that waits for a preamble and has seen no one.
    pub open spec fn idle() -> ReaderState {
        ReaderState {
            buf: [0u8, 0u8, 0u8, 0u8, 0u8, 0u8, 0u8, 0u8],
            count: 0,
            bits: 0,
            byte: 0,
            ones: 0,
            phase: Phase::Idle,
        }
    }

    /// The bytes that have arrived in full.
    pub open spec fn bytes(self) -> Seq<u8> {
        self.buf@.take(self.count as int)
    }

    /// The state after `bit`, and the message that the bit completes.
    ///
    /// Waiting for a preamble, the reader counts ones; a zero after at least
    /// ten of them starts the first byte, a zero after fewer starts the
    /// count again.  A byte takes eight bits, the first one highest.  After
    /// a byte a zero starts the next byte, and drops the packet if the
    /// buffer is full; a one ends the packet, which is given out if it is
    /// accepted, and the reader waits for the next preamble.
    pub open spec fn take(self, bit: Bit) -> (ReaderState, Option<Message>) {
        match self.phase {
            Phase::Idle => if bit == Bit::One {
                (
                    ReaderState {
                        ones: if self.ones < PREAMBLE_MIN {
                            (self.ones + 1) as u8
                        } else {
                            self.ones
                        },
                        ..self
                    },
                    None,
                )
            } else if self.ones >= PREAMBLE_MIN {
                (
                    ReaderState { count: 0, bits: 0, byte: 0, ones: 0, phase: Phase::Byte, ..self },
                    None,
                )
            } else {
                (ReaderState { ones: 0, ..self }, None)
            },
            Phase::Byte => {
                let byte = (self.byte << 1) | if bit == Bit::One {
                    1u8
                } else {
                    0u8
                };
                if self.bits == 7 {
                    (
                        ReaderState {
                            buf: with_byte(self.buf, self.count as int, byte),
                            count: (self.count + 1) as usize,
                            bits: 0,
                            byte: 0,
                            phase: Phase::StartBit,
                            ..self
                        },
                        None,
                    )
                } else {
                    (ReaderState { bits: (self.bits + 1) as u8, byte, ..self }, None)
                }
            },
            Phase::StartBit => if bit == Bit::One {
                (ReaderState::idle(), accepted(self.bytes()))
            } else if self.count < BUF_SIZE {
                (ReaderState { phase: Phase::Byte, ..self }, None)
            } else {
                (ReaderState::idle(), None)
            },
        }
    }

    /// The state and the answer of the reader after the decoder answered
    /// `answer`: a bit is taken in and the call is over with a message if
    /// the bit completes one; an error of the decoder is passed on.
    pub open spec fn receive(self, answer: Poll<Bit, Error>) -> (ReaderState, Poll<
        Message,
        Error,
    >) {
        match answer {
            Ok(bit) => (
                self.take(bit).0,
                match self.take(bit).1 {
                    Some(msg) => Ok(msg),
                    None => Err(Pending::WouldBlock),
                },
            ),
            Err(e) => (self, Err(e)),
        }
    }
}

fn idle() -> (s: ReaderState)
    ensures
        s == ReaderState::idle(),
        s.wf(),
{
    ReaderState {
        buf: [0, 0, 0, 0, 0, 0, 0, 0],
        count: 0,
        bits: 0,
        byte: 0,
        ones: 0,
        phase: Phase::Idle,
    }
}

fn accept(buf: &[u8; 8], count: usize) -> (msg: Option<Message>)
    requires
        1 <= count <= BUF_SIZE,
    ensures
        msg == accepted(buf@.take(count as int)),
{
    let ghost bytes = buf@.take(count as int);
    let mut x: u8 = 0;
    let mut i: usize = 0;
    while i < count
        invariant
            i <= count <= BUF_SIZE,
            bytes == buf@.take(count as int),
            x == xor_all(bytes.take(i as int)),
        decreases count - i,
    {
        proof {
            assert(bytes.take(i + 1).drop_last() == bytes.take(i as int));
        }
        x = x ^ buf[i];
        i += 1;
    }
    proof {
        assert(bytes.take(count as int) == bytes);
    }
    if x != 0 {
        return None;
    }
    let body = slice_subrange(buf.as_slice(), 0, count - 1);
    proof {
        assert(body@ == bytes.drop_last());
    }
    Message::parse(body)
}

impl ReaderState {
    /// Takes in one bit.
    pub fn step(self, bit: Bit) -> (r: (ReaderState, Option<Message>))
        requires
            self.wf(),
        ensures
            r == self.take(bit),
            r.0.wf(),
    {
        match self.phase {
            Phase::Idle => if bit == Bit::One {
                let ones: u8 = if self.ones < PREAMBLE_MIN {
                    self.ones + 1
                } else {
                    self.ones
                };
                (ReaderState { ones, ..self }, None)
            } else if self.ones >= PREAMBLE_MIN {
                (
                    ReaderState { count: 0, bits: 0, byte: 0, ones: 0, phase: Phase::Byte, ..self },
                    None,
                )
            } else {
                (ReaderState { ones: 0, ..self }, None)
            },
            Phase::Byte => {
                let low: u8 = if bit == Bit::One {
                    1
                } else {
                    0
                };
                let byte: u8 = (self.byte << 1) | low;
                if self.bits == 7 {
                    let mut buf: [u8; 8] = self.buf;
                    buf[self.count] = byte;
                    proof {
                        assert(buf =~= with_byte(self.buf, self.count as int, byte));
                    }
                    (
                        ReaderState {
                            buf,
                            count: self.count + 1,
                            bits: 0,
                            byte: 0,
                            phase: Phase::StartBit,
                            ..self
                        },
                        None,
                    )
                } else {
                    (ReaderState { bits: self.bits + 1, byte, ..self }, None)
                }
            },
            Phase::StartBit => if bit == Bit::One {
                let msg = accept(&self.buf, self.count);
                (idle(), msg)
            } else if self.count < BUF_SIZE {
                (ReaderState { phase: Phase::Byte, ..self }, None)
            } else {
                (idle(), None)
            },
        }
    }
}

/// The packet layer on its own: the state of a packet that is arriving, to
/// be fed by whatever takes the bits from the track.
pub struct Frame {
    s: ReaderState,
}

impl View for Frame {
    type V = ReaderState;

    closed spec fn view(&self) -> ReaderState {
        self.s
    }
}

impl Frame {
    #[verifier::type_invariant]
    spec fn inv(self) -> bool {
        self.s.wf()
    }

    pub fn new() -> (frame: Frame)
        ensures
            frame@ == ReaderState::idle(),
    {
        Frame { s: idle() }
    }

    /// The state of the packet layer.
    pub fn state(&self) -> (s: ReaderState)
        ensures
            s == self@,
            s.wf(),
    {
        proof {
            use_type_invariant(self);
        }
        self.s
    }

    /// Takes the answer of the decoder and gives the answer of the reader.
    pub fn receive(&mut self, answer: Poll<Bit, Error>) -> (r: Poll<Message, Error>)
        ensures
            (final(self)@, r) == old(self)@.receive(answer),
            final(self)@.wf(),
    {
        proof {
            use_type_invariant(&*self);
        }
        match answer {
            Ok(bit) => {
                let (next, msg) = self.s.step(bit);
                self.s = next;
                match msg {
                    Some(msg) => Ok(msg),
                    None => Err(Pending::WouldBlock),
                }
            },
            Err(e) => Err(e),
        }
    }
}

/// The packet reader over any decoder.
pub struct Reader<D: Decoder> {
    decoder: D,
    frame: Frame,
}

impl<D: Decoder> View for Reader<D> {
    type V = ReaderState;

    closed spec fn view(&self) -> ReaderState {
        self.frame@
    }
}

impl<D: Decoder> Reader<D> {
    pub fn new(decoder: D) -> (reader: Reader<D>)
        ensures
            reader@ == ReaderState::idle(),
    {
        Reader { decoder, frame: Frame::new() }
    }

    /// The state of the reader.
    pub fn state(&self) -> (s: ReaderState)
        ensures
            s == self@,
            s.wf(),
    {
        self.frame.state()
    }

    /// Calls the decoder once and takes in the bit it gives.  The answer is
    /// `Ok` with the message when the closing bit of an accepted packet has
    /// arrived.
    pub fn read(&mut self) -> (r: Poll<Message, Error>)
        ensures
            exists|answer: Poll<Bit, Error>|
                (final(self)@, r) == #[trigger] old(self)@.receive(answer),
            final(self)@.wf(),
    {
        let answer = self.decoder.read();
        let ghost given = answer;
        let r = self.frame.receive(answer);
        proof {
            assert((self@, r) == old(self)@.receive(given));
        }
        r
    }
}

/// The state of the packet reader together with its half-bit decoder.
#[derive(Clone, Copy, Debug, PartialEq, Eq)]
pub struct PinReaderState {
    pub decoder: DecoderState,
    pub reader: ReaderState,
}

impl PinReaderState {
    /// One call of the reader: the decoder is called, and a bit that it
    /// gives is taken in.  While an operation is needed nothing changes.
    pub open spec fn read(self, io: Seq<Outcome>) -> (PinReaderState, Turn<Message, Error>) {
        let (decoder, turn) = self.decoder.read(io);
        match turn {
            Turn::Need(op) => (self, Turn::Need(op)),
            Turn::Done(bit) => (
                PinReaderState { decoder, reader: self.reader.take(bit).0 },
                match self.reader.take(bit).1 {
                    Some(msg) => Turn::Done(msg),
                    None => Turn::WouldBlock,
                },
            ),
            Turn::WouldBlock => (PinReaderState { decoder, reader: self.reader }, Turn::WouldBlock),
            Turn::Failed(e) => (PinReaderState { decoder, reader: self.reader }, Turn::Failed(e)),
        }
    }
}

/// The packet reader for a track pin and a microsecond timer.
pub struct PinDelayReader {
    decoder: PinDecoder,
    frame: Frame,
}

impl View for PinDelayReader {
    type V = PinReaderState;

    closed spec fn view(&self) -> PinReaderState {
        PinReaderState { decoder: self.decoder@, reader: self.frame@ }
    }
}

impl PinDelayReader {
    pub fn new() -> (reader: PinDelayReader)
        ensures
            reader@ == (PinReaderState {
                decoder: DecoderState::fresh(),
                reader: ReaderState::idle(),
            }),
    {
        PinDelayReader { decoder: PinDecoder::new(), frame: Frame::new() }
    }

    /// The state of the reader and of its decoder.
    pub fn state(&self) -> (s: PinReaderState)
        ensures
            s == self@,
            s.reader.wf(),
    {
        PinReaderState { decoder: self.decoder.state(), reader: self.frame.state() }
    }

    /// Samples the track once and takes in a bit that the sample completes.
    pub fn read(&mut self, io: &[Outcome]) -> (turn: Turn<Message, Error>)
        ensures
            (final(self)@, turn) == old(self)@.read(io@),
            final(self)@.reader.wf(),
    {
        let _before = self.frame.state();
        match self.decoder.read(io) {
            Turn::Need(op) => Turn::Need(op),
            Turn::Done(bit) => match self.frame.receive(Ok(bit)) {
                Ok(msg) => Turn::Done(msg),
                Err(_) => Turn::WouldBlock,
            },
            Turn::WouldBlock => Turn::WouldBlock,
            Turn::Failed(e) => Turn::Failed(e),
        }
    }
}

/// A call of the decoder asks for at most three operations: one sample, one
/// wait and one timer start.
pub proof fn lemma_decoder_is_bounded(s: DecoderState, io: Seq<Outcome>)
    requires
        io.len() >= 3,
    ensures
        !(s.read(io).1 is Need),
{
}

/// A call of the pin reader asks for no more operations than the decoder
/// does.
pub proof fn lemma_pin_reader_is_bounded(s: PinReaderState, io: Seq<Outcome>)
    requires
        io.len() >= 3,
    ensures
        !(s.read(io).1 is Need),
{
}

impl ReaderState {
    /// The state after the bits `bits`, and the messages that they complete,
    /// in the order of their completion.
    pub open spec fn feed(self, bits: Seq<Bit>) -> (ReaderState, Seq<Message>)
        decreases bits.len(),
    {
        if bits.len() == 0 {
            (self, Seq::empty())
        } else {
            let (before, msgs) = self.feed(bits.drop_last());
            let (after, msg) = before.take(bits.last());
            (
                after,
                match msg {
                    Some(msg) => msgs.push(msg),
                    None => msgs,
                },
            )
        }
    }
}

/// The first `k` bits of `byte`, as the reader has them after `k` bits.
spec fn prefix(byte: u8, k: int) -> u8 {
    if k <= 0 {
        0
    } else {
        byte >> ((8 - k) as u8)
    }
}

proof fn lemma_shift_in(byte: u8, k: u8)
    by (bit_vector)
    requires
        k < 8,
    ensures
        ((if k == 0 { 0u8 } else { byte >> ((8 - k) as u8) }) << 1) | (if (byte >> ((7 - k) as u8))
            & 0x01 == 0x01 {
            1u8
        } else {
            0u8
        }) == byte >> ((7 - k) as u8),
        byte >> 0u8 == byte,
{
}

/// Whether `s` is the state of a reader that has taken in the first `p` bits
/// of the packet with the bytes `bytes`.
spec fn follows(bytes: Seq<u8>, p: int, s: ReaderState) -> bool {
    if p <= 14 {
        s.phase == Phase::Idle && s.ones == if p < 10 {
            p
        } else {
            10
        }
    } else {
        let j = (p - 15) / 9;
        let r = (p - 15) % 9;
        &&& forall|i: int| 0 <= i < j ==> s.buf[i] == bytes[i]
        &&& if r < 8 {
            s.phase == Phase::Byte && s.count == j && s.bits == r && s.byte == prefix(bytes[j], r)
        } else {
            s.phase == Phase::StartBit && s.count == j + 1 && s.bits == 0 && s.byte == 0
                && s.buf[j] == bytes[j]
        }
    }
}

proof fn lemma_reader_follows(bytes: Seq<u8>, p: int)
    requires
        1 <= bytes.len() <= 8,
        0 <= p <= 14 + 9 * bytes.len(),
    ensures
        follows(bytes, p, ReaderState::idle().feed(crate::dcc::writer::packet_bits(bytes).take(p)).0),
        ReaderState::idle().feed(crate::dcc::writer::packet_bits(bytes).take(p)).1
            == Seq::<Message>::empty(),
    decreases p,
{
    let bits = crate::dcc::writer::packet_bits(bytes);
    if p > 0 {
        lemma_reader_follows(bytes, p - 1);
        assert(bits.take(p).drop_last() == bits.take(p - 1));
        assert(bits.take(p).last() == bits[p - 1]);
        let before = ReaderState::idle().feed(bits.take(p - 1)).0;
        let after = before.take(bits[p - 1]).0;
        if p - 1 >= 15 {
            let j = (p - 16) / 9;
            let r = (p - 16) % 9;
            if r < 8 {
                lemma_shift_in(bytes[j], r as u8);
                assert(bits[p - 1] == crate::dcc::writer::msb_bit(bytes[j], r));
                if r == 7 {
                    assert(after.buf[j] == bytes[j]);
                    assert forall|i: int| 0 <= i < j implies after.buf[i] == bytes[i] by {
                        assert(before.buf[i] == bytes[i]);
                    }
                }
            } else {
                assert(bits[p - 1] == Bit::Zero);
                assert forall|i: int| 0 <= i < j + 1 implies after.buf[i] == bytes[i] by {
                    if i < j {
                        assert(before.buf[i] == bytes[i]);
                    }
                }
            }
        }
    }
}

/// A reader that waits for a preamble and is given the bits of a packet
/// gives out, with the last bit, the message that the bytes of the packet
/// are accepted as, and nothing before; it then waits for the next
/// preamble.
pub proof fn lemma_reader_accepts_packet(bytes: Seq<u8>)
    requires
        1 <= bytes.len() <= 8,
    ensures
        ReaderState::idle().feed(crate::dcc::writer::packet_bits(bytes)) == (
            ReaderState::idle(),
            match accepted(bytes) {
                Some(msg) => seq![msg],
                None => Seq::<Message>::empty(),
            },
        ),
{
    let bits = crate::dcc::writer::packet_bits(bytes);
    let n = bytes.len() as int;
    let p = 14 + 9 * n;
    lemma_reader_follows(bytes, p);
    assert(bits.drop_last() == bits.take(p));
    let before = ReaderState::idle().feed(bits.take(p)).0;
    assert(before.bytes() =~= bytes) by {
        assert forall|i: int| 0 <= i < n implies before.buf[i] == bytes[i] by {}
    }
    assert(bits.last() == Bit::One);
    match accepted(bytes) {
        Some(msg) => {
            assert(Seq::<Message>::empty().push(msg) =~= seq![msg]);
        },
        None => {},
    }
}

/// What the packet writer sends for a drive command, the reader gives out
/// again as the message read from the bytes of the packet: the command
/// itself wherever it survives its wire form.
pub proof fn lemma_reader_reads_what_is_written(msg: Message)
    requires
        msg is Drive,
        msg->Drive_0.num < 0x3F00,
    ensures
        ReaderState::idle().feed(crate::dcc::writer::packet_bits(msg.wire())) == (
            ReaderState::idle(),
            seq![message_parsed(msg.wire().drop_last())],
        ),
        crate::dcc::message::survives(msg) <==> ReaderState::idle().feed(
            crate::dcc::writer::packet_bits(msg.wire()),
        ).1 == seq![msg],
{
    crate::dcc::message::lemma_checksum(msg);
    crate::dcc::message::lemma_round_trip(msg);
    lemma_reader_accepts_packet(msg.wire());
    let parsed = message_parsed(msg.wire().drop_last());
    assert(seq![parsed] == seq![msg] <==> parsed == msg) by {
        assert(seq![parsed][0] == parsed);
        assert(seq![msg][0] == msg);
    }
}

/// The outcomes of a call that finds the track at `level`, with the timer
/// fired or not, and in which nothing fails.
pub open spec fn edge_io(level: bool, fired: bool) -> Seq<Outcome> {
    seq![
        if level {
            Outcome::High
        } else {
            Outcome::Low
        },
        if fired {
            Outcome::Done
        } else {
            Outcome::WouldBlock
        },
        Outcome::Done,
    ]
}

/// Two edges in a row that both come before the timer fires make a one,
/// two that both come after it make a zero, and two of different kinds make
/// no bit: the later one waits for its like.  A call without an edge
/// changes nothing.
pub proof fn lemma_decoder_pairs(level: bool, first: bool, second: bool)
    ensures
        ({
            let s = DecoderState { last_level: Some(level), last_half: None };
            let (s1, t1) = s.read(edge_io(!level, first));
            let (s2, t2) = s1.read(edge_io(level, second));
            &&& t1 == Turn::<Bit, Error>::WouldBlock
            &&& s.read(edge_io(level, first)) == (s, Turn::<Bit, Error>::WouldBlock)
            &&& s1.last_level == Some(!level)
            &&& (first == second ==> t2 == Turn::<Bit, Error>::Done(
                if first {
                    Bit::Zero
                } else {
                    Bit::One
                },
            ) && s2 == s)
            &&& (first != second ==> t2 == Turn::<Bit, Error>::WouldBlock && s2.last_half == Some(
                if second {
                    Bit::Zero
                } else {
                    Bit::One
                },
            ))
        }),
{
    let a = edge_io(!level, first);
    let b = edge_io(level, second);
    let c = edge_io(level, first);
    assert(a[0] == edge_io(!level, first)[0] && a[1] == edge_io(!level, first)[1] && a[2]
        == Outcome::Done);
    assert(b[0] == edge_io(level, second)[0] && b[1] == edge_io(level, second)[1] && b[2]
        == Outcome::Done);
    assert(c[0] == edge_io(level, first)[0]);
}

} // verus!
