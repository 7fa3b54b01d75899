//! DCC packets: address bytes, command bytes, and a closing XOR byte.

use vstd::prelude::*;
use crate::base::add_xor;
use crate::base::address::Address;
use crate::base::drive::{Direction, Speed};
use crate::base::{with_xor, xor_all};
use crate::dcc::address::{DccAddress, address_bytes, address_parsed, address_span, address_survives, lemma_address_round_trip};
use crate::dcc::direction::{DccDirection, advanced_direction, advanced_direction_byte, baseline_direction, baseline_direction_byte};
use crate::dcc::speed::{DccSpeed, lemma_speed_fields, lemma_speed_round_trip, lemma_steps128_never_emergency_stop, speed_byte, speed_from_128, speed_from_28, survives_128, survives_28};

verus! {

/// A DCC packet.
#[derive(Clone, Copy, Debug, PartialEq, Eq, Structural)]
pub enum Message {
    /// A packet for `Address` whose command is not understood.
    Unknown(Address),
    /// Sets direction and speed of a locomotive.
    Drive(Address, Direction, Speed),
}

/// The command byte that opens the advanced (128-step) speed command.
pub const ADVANCED_SPEED: u8 = 0b001_11111;

/// The two top bits of a baseline (28-step) speed command.
pub const BASELINE_SPEED: u8 = 0b010_00000;

/// The bytes of a drive command without the closing XOR byte: the address,
/// then for a 128-step speed the advanced prefix and a byte of direction and
/// speed, for any other speed one baseline byte of direction and speed.
pub open spec fn drive_bytes(addr: Address, dir: Direction, speed: Speed) -> Seq<u8> {
    if speed is Steps128 {
        address_bytes(addr) + seq![
            ADVANCED_SPEED,
            advanced_direction_byte(dir) | speed_byte(speed),
        ]
    } else {
        address_bytes(addr) + seq![
            BASELINE_SPEED | baseline_direction_byte(dir) | speed_byte(speed),
        ]
    }
}

/// The top three bits of a command byte.
pub open spec fn command_kind(byte: u8) -> u8 {
    (byte & 0b111_00000) >> 5
}

/// The index of the command byte in `bytes`: the length of the wire form of
/// the address that `bytes` begins with, 2 for a number above 127 and else
/// 1, whatever the form that the number was read from.
pub open spec fn command_index(bytes: Seq<u8>) -> nat
    recommends
        bytes.len() >= address_span(bytes),
{
    address_bytes(address_parsed(bytes)).len()
}

/// How many bytes the message at the start of `bytes` takes, XOR byte not
/// counted: up to the command byte, and one more after the advanced speed
/// prefix.
pub open spec fn message_span(bytes: Seq<u8>) -> nat
    recommends
        bytes.len() > command_index(bytes),
{
    let n = command_index(bytes);
    if bytes[n as int] == ADVANCED_SPEED {
        n + 2
    } else {
        n + 1
    }
}

/// Whether `bytes` holds all the bytes that reading the message at its start
/// looks at: those of the address, the command byte, and the byte after the
/// advanced speed prefix.
pub open spec fn is_complete(bytes: Seq<u8>) -> bool {
    &&& bytes.len() >= 1
    &&& bytes.len() >= address_span(bytes)
    &&& bytes.len() > command_index(bytes)
    &&& bytes.len() >= message_span(bytes)
}

/// The message that `bytes` begins with.  The top three bits of the command
/// byte tell a baseline speed command; the advanced prefix tells a speed
/// command in the byte after it; any other command is not known.
pub open spec fn message_parsed(bytes: Seq<u8>) -> Message
    recommends
        is_complete(bytes),
{
    let addr = address_parsed(bytes);
    let n = command_index(bytes) as int;
    let kind = command_kind(bytes[n]);
    if kind == 0b010 || kind == 0b011 {
        Message::Drive(addr, baseline_direction(bytes[n]), speed_from_28(bytes[n]))
    } else if bytes[n] == ADVANCED_SPEED {
        Message::Drive(addr, advanced_direction(bytes[n + 1]), speed_from_128(bytes[n + 1]))
    } else {
        Message::Unknown(addr)
    }
}

proof fn lemma_command_bits(byte: u8)
    by (bit_vector)
    ensures
        ((byte & 0b111_00000) >> 5 == 0b001 && byte & 0b000_11111 == 0b11111) <==> byte
            == 0b001_11111,
        (byte & 0b111_00000) >> 5 == 0b010 || (byte & 0b111_00000) >> 5 == 0b011 ==> byte
            != 0b001_11111,
        byte == 0 ==> (byte & 0b111_00000) >> 5 == 0,
{
}

impl Message {
    /// The bytes of the message on the wire, closing XOR byte included.
    pub open spec fn wire(&self) -> Seq<u8>
        recommends
            self is Drive,
    {
        match self {
            Message::Drive(addr, dir, speed) => with_xor(drive_bytes(*addr, *dir, *speed)),
            Message::Unknown(_) => Seq::empty(),
        }
    }

    /// Reads the message at the start of `bytes`.  The bytes must hold the
    /// whole message; a closing XOR byte is neither needed nor looked at.
    pub fn from_bytes(bytes: &[u8]) -> (msg: Message)
        requires
            is_complete(bytes@),
        ensures
            msg == message_parsed(bytes@),
    {
        let addr = Address::from_bytes(bytes);
        let n: usize = addr.len();
        proof {
            lemma_command_bits(bytes[n as int]);
        }
        let byte: u8 = bytes[n];
        let cmd: u8 = (byte & 0b111_00000) >> 5;
        if cmd == 0b010 || cmd == 0b011 {
            Message::Drive(
                addr,
                Direction::from_baseline_byte(byte),
                Speed::from_byte_28_steps(byte),
            )
        } else if cmd == 0b001 && byte & 0b000_11111 == 0b11111 {
            let next: u8 = bytes[n + 1];
            Message::Drive(
                addr,
                Direction::from_advanced_byte(next),
                Speed::from_byte_128_steps(next),
            )
        } else {
            Message::Unknown(addr)
        }
    }

    /// Reads the message at the start of `bytes` if they hold all of it.
    pub fn parse(bytes: &[u8]) -> (msg: Option<Message>)
        ensures
            msg == if is_complete(bytes@) {
                Some(message_parsed(bytes@))
            } else {
                None::<Message>
            },
    {
        if bytes.len() < 1 {
            return None;
        }
        let first: u8 = bytes[0];
        if first & 0xC0 == 0xC0 && first & 0x3F != 0x3F && bytes.len() < 2 {
            return None;
        }
        let n: usize = Address::from_bytes(bytes).len();
        if bytes.len() <= n {
            return None;
        }
        if bytes[n] == ADVANCED_SPEED && bytes.len() < n + 2 {
            return None;
        }
        Some(Message::from_bytes(bytes))
    }

    /// Writes a drive command with its XOR byte to the start of `buf` and
    /// returns the number of bytes written.
    pub fn to_buf(&self, buf: &mut [u8]) -> (n: usize)
        requires
            *self is Drive,
            old(buf)@.len() >= self.wire().len(),
        ensures
            n == self.wire().len(),
            3 <= n <= 5,
            final(buf)@.len() == old(buf)@.len(),
            final(buf)@.take(n as int) == self.wire(),
            final(buf)@.skip(n as int) == old(buf)@.skip(n as int),
    {
        match self {
            Message::Drive(addr, dir, speed) => {
                let n: usize = addr.to_buf(buf);
                let ghost body = drive_bytes(*addr, *dir, *speed);
                let ghost addressed = buf@;
                let len: usize = match speed {
                    Speed::Steps128(_) => {
                        buf[n] = ADVANCED_SPEED;
                        buf[n + 1] = dir.to_advanced_byte() | speed.to_byte();
                        n + 3
                    },
                    _ => {
                        buf[n] = BASELINE_SPEED | dir.to_baseline_byte() | speed.to_byte();
                        n + 2
                    },
                };
                proof {
                    assert(buf@.take(n as int) == address_bytes(*addr));
                    assert(buf@.take(len - 1) =~= body);
                }
                let len: usize = add_xor(buf, len);
                proof {
                    assert(buf@.take(len as int) =~= with_xor(body));
                    assert forall|i: int| 0 <= i < buf@.len() - len implies buf@.skip(
                        len as int,
                    )[i] == old(buf)@.skip(len as int)[i] by {
                        assert(addressed.skip(n as int)[i + len - n] == old(buf)@.skip(
                            n as int,
                        )[i + len - n]);
                    }
                    assert(buf@.skip(len as int) =~= old(buf)@.skip(len as int));
                }
                len
            },
            Message::Unknown(_) => 0,
        }
    }
}

/// The last byte of a packet is the XOR of all the bytes before it.
pub proof fn lemma_checksum(msg: Message)
    requires
        msg is Drive,
    ensures
        msg.wire().len() >= 3,
        xor_all(msg.wire().drop_last()) == msg.wire().last(),
        xor_all(msg.wire()) == 0,
{
    let body = msg.wire().drop_last();
    match msg {
        Message::Drive(addr, dir, speed) => {
            assert(body =~= drive_bytes(addr, dir, speed));
        },
        Message::Unknown(_) => {},
    }
    let x = xor_all(body);
    assert(msg.wire().drop_last() == body);
    assert(x ^ x == 0) by (bit_vector);
}

/// Whether a drive command is read back from its packet as it was written:
/// its address must survive, and its speed must survive in the format the
/// command is sent in.
pub open spec fn survives(msg: Message) -> bool {
    match msg {
        Message::Drive(addr, dir, speed) => address_survives(addr) && if speed is Steps128 {
            survives_128(speed)
        } else {
            survives_28(speed)
        },
        Message::Unknown(_) => false,
    }
}

proof fn lemma_drive_bits(d: u8, s: u8)
    by (bit_vector)
    requires
        s <= 0x1F,
    ensures
        d == 0x20 || d == 0 ==> ((0b010_00000u8 | d | s) & 0b111_00000) >> 5 == 0b010 || ((
        0b010_00000u8 | d | s) & 0b111_00000) >> 5 == 0b011,
        d == 0x20 || d == 0 ==> ((0b010_00000u8 | d | s) & 0x20 == 0x20 <==> d == 0x20),
        d == 0x20 || d == 0 ==> (0b010_00000u8 | d | s) & 0x1F == s,
        d == 0x20 || d == 0 ==> (0b010_00000u8 | d | s) & 0x0F == s & 0x0F,
        d == 0x20 || d == 0 ==> ((0b010_00000u8 | d | s) >> 4) & 0x01 == (s >> 4) & 0x01,
        s & 0x1F == s,
{
}

proof fn lemma_advanced_bits(d: u8, s: u8)
    by (bit_vector)
    requires
        s <= 0x7F,
    ensures
        d == 0x80 || d == 0 ==> ((d | s) & 0x80 == 0x80 <==> d == 0x80),
        d == 0x80 || d == 0 ==> (d | s) & 0x7F == s,
        s & 0x7F == s,
{
}

/// Reading a packet without its XOR byte gives back the drive command it was
/// written from exactly when `survives` says so, for every address below
/// `0x3F00`.
pub proof fn lemma_round_trip(msg: Message)
    requires
        msg is Drive,
        msg->Drive_0.num < 0x3F00,
    ensures
        is_complete(msg.wire().drop_last()),
        message_parsed(msg.wire().drop_last()) == msg <==> survives(msg),
{
    let body = msg.wire().drop_last();
    match msg {
        Message::Drive(addr, dir, speed) => {
            assert(body =~= drive_bytes(addr, dir, speed));
            let n = address_bytes(addr).len() as int;
            lemma_speed_round_trip(speed);
            lemma_command_bits(body[n]);
            if speed is Steps128 {
                let rest = seq![ADVANCED_SPEED, advanced_direction_byte(dir) | speed_byte(speed)];
                assert(body == address_bytes(addr) + rest);
                lemma_address_round_trip(addr, rest);
                assert(body[n] == rest[0]);
                assert(body[n + 1] == rest[1]);
                lemma_steps128_never_emergency_stop(speed->Steps128_0);
                lemma_advanced_bits(advanced_direction_byte(dir), speed_byte(speed));
            } else {
                let rest = seq![BASELINE_SPEED | baseline_direction_byte(dir) | speed_byte(speed)];
                assert(body == address_bytes(addr) + rest);
                lemma_address_round_trip(addr, rest);
                assert(body[n] == rest[0]);
                match speed {
                    Speed::Steps14(s) => lemma_speed_fields(s),
                    Speed::Steps28(s) => lemma_speed_fields(s),
                    _ => {},
                }
                lemma_drive_bits(baseline_direction_byte(dir), speed_byte(speed));
            }
            if address_parsed(body) != addr {
                assert(message_parsed(body) != msg);
            }
        },
        Message::Unknown(_) => {},
    }
}

/// No drive command with a 128-step speed is read back from its packet as
/// an emergency stop, whatever becomes of its address.
pub proof fn lemma_no_speed_is_an_emergency_stop(msg: Message)
    requires
        msg is Drive,
        msg->Drive_2 is Steps128,
        msg->Drive_0.num < 0x3F00,
    ensures
        match message_parsed(msg.wire().drop_last()) {
            Message::Drive(_, _, speed) => speed != Speed::EmergencyStop,
            Message::Unknown(_) => true,
        },
{
    let body = msg.wire().drop_last();
    match msg {
        Message::Drive(addr, dir, speed) => {
            assert(body =~= drive_bytes(addr, dir, speed));
            let n = address_bytes(addr).len() as int;
            let rest = seq![ADVANCED_SPEED, advanced_direction_byte(dir) | speed_byte(speed)];
            assert(body == address_bytes(addr) + rest);
            lemma_address_round_trip(addr, rest);
            assert(body[n] == rest[0]);
            assert(body[n + 1] == rest[1]);
            lemma_command_bits(body[n]);
            lemma_command_bits(body[1]);
            lemma_steps128_never_emergency_stop(speed->Steps128_0);
            lemma_advanced_bits(advanced_direction_byte(dir), speed_byte(speed));
        },
        Message::Unknown(_) => {},
    }
}

} // verus!
