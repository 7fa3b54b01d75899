//! SUSI messages and their two- or three-byte wire form.

use vstd::prelude::*;
use crate::base::analog::AnalogNumber;
use crate::base::drive::Direction;
use crate::base::functions::FunctionGroupNumber;
use crate::dcc::function::{FunctionGroupByte, lemma_group_byte_conversions};

verus! {

/// A value with a one-byte wire form.
pub trait Byte<T> {
    /// The value that `byte` stands for.
    spec fn decoded(byte: u8) -> T;

    /// The byte that stands for this value.
    spec fn encoded(&self) -> u8;

    fn from_byte(byte: u8) -> (value: T)
        ensures
            value == Self::decoded(byte),
    ;

    fn to_byte(&self) -> (byte: u8)
        ensures
            byte == self.encoded(),
    ;
}

impl Byte<Direction> for Direction {
    /// Bit 7 set means forward.
    open spec fn decoded(byte: u8) -> Direction {
        if byte & 0x80 != 0 {
            Direction::Forward
        } else {
            Direction::Backward
        }
    }

    open spec fn encoded(&self) -> u8 {
        match self {
            Direction::Forward => 0x80,
            Direction::Backward => 0x00,
        }
    }

    fn from_byte(byte: u8) -> (value: Direction) {
        if byte & 0x80 != 0 {
            Direction::Forward
        } else {
            Direction::Backward
        }
    }

    fn to_byte(&self) -> (byte: u8) {
        match self {
            Direction::Forward => 0x80,
            Direction::Backward => 0x00,
        }
    }
}

/// A message on the SUSI bus.
#[allow(inconsistent_fields)]
#[derive(Clone, Copy, Debug, PartialEq, Eq)]
pub enum Msg {
    Noop,
    TriggerPulse,
    SpeedDiff(i8),
    MotorPower(i8),
    LocomotiveSpeed(Direction, u8),
    ControlSpeed(Direction, u8),
    LocomotiveLoad(u8),
    Analog(AnalogNumber, u8),
    FunctionGroup(FunctionGroupNumber, FunctionGroupByte),
    BinaryState(u8, bool),
    CVByteCheck { addr: u8, value: u8 },
    CVBitManipulation { addr: u8, check: bool, value: bool, position: u8 },
    CVByteSet { addr: u8, value: u8 },
    Unknown([u8; 3]),
}

/// The low seven bits of a byte.
pub const MASK7: u8 = 0b0111_1111;

/// Bit 7 if `flag` holds, else nothing.
pub open spec fn flag_bit(flag: bool, bit: u8) -> u8 {
    if flag {
        bit
    } else {
        0
    }
}

/// The length in bytes of a message whose command byte is `cmd`: 3 for the
/// three commands that access a configuration variable, else 2.
pub open spec fn length_of_command(cmd: u8) -> u8 {
    if cmd == 0x77 || cmd == 0x7B || cmd == 0x7F {
        3
    } else {
        2
    }
}

/// The message that three bytes stand for.  The third byte counts only for
/// the commands that access a configuration variable; those need bit 7 of
/// their address byte set.  Whatever fits no command is `Unknown`.
pub open spec fn msg_parsed(bytes: [u8; 3]) -> Msg {
    let cmd = bytes[0];
    let data = bytes[1];
    let third = bytes[2];
    if cmd == 0 && data == 0 {
        Msg::Noop
    } else if cmd == 33 && data == 0x01 {
        Msg::TriggerPulse
    } else if cmd == 34 {
        Msg::SpeedDiff(data as i8)
    } else if cmd == 35 {
        Msg::MotorPower(data as i8)
    } else if cmd == 36 {
        Msg::LocomotiveSpeed(<Direction as Byte<Direction>>::decoded(data), data & MASK7)
    } else if cmd == 37 {
        Msg::ControlSpeed(<Direction as Byte<Direction>>::decoded(data), data & MASK7)
    } else if cmd == 38 {
        Msg::LocomotiveLoad(data & MASK7)
    } else if 40 <= cmd <= 47 {
        Msg::Analog(AnalogNumber::spec_from_u8((cmd - 40) as u8).unwrap(), data)
    } else if 96 <= cmd <= 104 {
        Msg::FunctionGroup(
            FunctionGroupNumber::spec_from_u8((cmd - 95) as u8).unwrap(),
            group_byte(data),
        )
    } else if cmd == 109 {
        Msg::BinaryState(data & MASK7, data & 0x80 == 0x80)
    } else if cmd == 119 && data & 0x80 == 0x80 {
        Msg::CVByteCheck { addr: data, value: third }
    } else if cmd == 123 && data & 0x80 == 0x80 {
        Msg::CVBitManipulation {
            addr: data,
            check: third & 0x10 == 0x10,
            value: third & 0x08 == 0x08,
            position: third & 0x07,
        }
    } else if cmd == 127 && data & 0x80 == 0x80 {
        Msg::CVByteSet { addr: data, value: third }
    } else {
        Msg::Unknown(bytes)
    }
}

/// The function-group byte with the bits of `data`.
pub open spec fn group_byte(data: u8) -> FunctionGroupByte {
    <FunctionGroupByte as vstd::std_specs::convert::FromSpec<u8>>::from_spec(data)
}

/// The three bytes that stand for a message; the third is zero for a
/// two-byte message.
pub open spec fn msg_bytes(msg: Msg) -> [u8; 3] {
    match msg {
        Msg::Noop => [0x00u8, 0x00u8, 0x00u8],
        Msg::TriggerPulse => [33u8, 0x01u8, 0x00u8],
        Msg::SpeedDiff(diff) => [34u8, diff as u8, 0x00u8],
        Msg::MotorPower(power) => [35u8, power as u8, 0x00u8],
        Msg::LocomotiveSpeed(dir, speed) => [36u8, dir.encoded() | (speed & MASK7), 0x00u8],
        Msg::ControlSpeed(dir, speed) => [37u8, dir.encoded() | (speed & MASK7), 0x00u8],
        Msg::LocomotiveLoad(load) => [38u8, load & MASK7, 0x00u8],
        Msg::Analog(num, value) => [(40 + num.spec_to_u8()) as u8, value, 0x00u8],
        Msg::FunctionGroup(num, data) => [(95 + num.spec_to_u8()) as u8, data@, 0x00u8],
        Msg::BinaryState(addr, on) => [109u8, flag_bit(on, 0x80) | (addr & MASK7), 0x00u8],
        Msg::CVByteCheck { addr, value } => [119u8, 0x80 | (addr & MASK7), value],
        Msg::CVBitManipulation { addr, check, value, position } => [
            123u8,
            0x80 | (addr & MASK7),
            0xE0 | flag_bit(check, 0x10) | flag_bit(value, 0x08) | (position & 0x07),
        ],
        Msg::CVByteSet { addr, value } => [127u8, 0x80 | (addr & MASK7), value],
        Msg::Unknown(bytes) => bytes,
    }
}

impl Msg {
    /// The length in bytes of a message whose command byte is `cmd`.
    pub fn len_from_byte(cmd: u8) -> (len: u8)
        ensures
            len == length_of_command(cmd),
    {
        match cmd {
            0x77 | 0x7B | 0x7F => 3,
            _ => 2,
        }
    }

    /// Whether the message accesses a configuration variable.
    pub open spec fn is_cv_access(&self) -> bool {
        *self is CVByteCheck || *self is CVBitManipulation || *self is CVByteSet
    }

    /// The length in bytes of the message: 3 for an access to a
    /// configuration variable and for `Unknown`, else 2.
    pub open spec fn spec_len(&self) -> u8 {
        if self.is_cv_access() || *self is Unknown {
            3
        } else {
            2
        }
    }

    #[verifier::when_used_as_spec(spec_len)]
    pub fn len(&self) -> (len: u8)
        ensures
            len == self.spec_len(),
    {
        match self {
            Msg::CVByteCheck { .. } | Msg::CVBitManipulation { .. } | Msg::CVByteSet { .. } => 3,
            Msg::Unknown(_) => 3,
            _ => 2,
        }
    }

    /// Whether the receiver has to acknowledge the message: exactly the
    /// accesses to a configuration variable.
    #[verifier::when_used_as_spec(is_cv_access)]
    pub fn needs_ack(&self) -> (ack: bool)
        ensures
            ack == self.is_cv_access(),
            ack <==> (*self is CVByteCheck || *self is CVBitManipulation || *self is CVByteSet),
    {
        match self {
            Msg::CVByteCheck { .. } | Msg::CVBitManipulation { .. } | Msg::CVByteSet { .. } => true,
            _ => false,
        }
    }

    pub fn from_bytes(bytes: &[u8; 3]) -> (msg: Msg)
        ensures
            msg == msg_parsed(*bytes),
    {
        let cmd: u8 = bytes[0];
        let data: u8 = bytes[1];
        let third: u8 = bytes[2];
        if cmd == 0 && data == 0 {
            Msg::Noop
        } else if cmd == 33 && data == 0x01 {
            Msg::TriggerPulse
        } else if cmd == 34 {
            Msg::SpeedDiff(data as i8)
        } else if cmd == 35 {
            Msg::MotorPower(data as i8)
        } else if cmd == 36 {
            Msg::LocomotiveSpeed(Direction::from_byte(data), data & MASK7)
        } else if cmd == 37 {
            Msg::ControlSpeed(Direction::from_byte(data), data & MASK7)
        } else if cmd == 38 {
            Msg::LocomotiveLoad(data & MASK7)
        } else if 40 <= cmd && cmd <= 47 {
            match AnalogNumber::from_u8(cmd - 40) {
                Some(num) => Msg::Analog(num, data),
                None => Msg::Unknown(*bytes),
            }
        } else if 96 <= cmd && cmd <= 104 {
            match FunctionGroupNumber::from_u8(cmd - 95) {
                Some(num) => Msg::FunctionGroup(num, FunctionGroupByte::from(data)),
                None => Msg::Unknown(*bytes),
            }
        } else if cmd == 109 {
            Msg::BinaryState(data & MASK7, data & 0x80 == 0x80)
        } else if cmd == 119 && data & 0x80 == 0x80 {
            Msg::CVByteCheck { addr: data, value: third }
        } else if cmd == 123 && data & 0x80 == 0x80 {
            Msg::CVBitManipulation {
                addr: data,
                check: third & 0x10 == 0x10,
                value: third & 0x08 == 0x08,
                position: third & 0x07,
            }
        } else if cmd == 127 && data & 0x80 == 0x80 {
            Msg::CVByteSet { addr: data, value: third }
        } else {
            Msg::Unknown(*bytes)
        }
    }

    pub fn to_bytes(&self) -> (bytes: [u8; 3])
        ensures
            bytes == msg_bytes(*self),
    {
        let bytes: [u8; 3] = match self {
            Msg::Noop => [0x00, 0x00, 0x00],
            Msg::TriggerPulse => [33, 0x01, 0x00],
            Msg::SpeedDiff(diff) => [34, *diff as u8, 0x00],
            Msg::MotorPower(power) => [35, *power as u8, 0x00],
            Msg::LocomotiveSpeed(dir, speed) => [36, dir.to_byte() | (*speed & MASK7), 0x00],
            Msg::ControlSpeed(dir, speed) => [37, dir.to_byte() | (*speed & MASK7), 0x00],
            Msg::LocomotiveLoad(load) => [38, *load & MASK7, 0x00],
            Msg::Analog(num, value) => [40 + num.to_u8(), *value, 0x00],
            Msg::FunctionGroup(num, data) => [95 + num.to_u8(), data.data(), 0x00],
            Msg::BinaryState(addr, on) => {
                let top: u8 = if *on {
                    0x80
                } else {
                    0
                };
                [109, top | (*addr & MASK7), 0x00]
            },
            Msg::CVByteCheck { addr, value } => [119, 0x80 | (*addr & MASK7), *value],
            Msg::CVBitManipulation { addr, check, value, position } => {
                let c: u8 = if *check {
                    0x10
                } else {
                    0
                };
                let v: u8 = if *value {
                    0x08
                } else {
                    0
                };
                [123, 0x80 | (*addr & MASK7), 0xE0 | c | v | (*position & 0x07)]
            },
            Msg::CVByteSet { addr, value } => [127, 0x80 | (*addr & MASK7), *value],
            Msg::Unknown(bytes) => *bytes,
        };
        proof {
            assert(bytes =~= msg_bytes(*self));
        }
        bytes
    }
}

/// Whether a message is read back from its bytes as it was written: a
/// seven-bit field must fit in seven bits, the address of a configuration
/// variable must have bit 7 set, a bit position must be below 8, and the
/// bytes of an `Unknown` must fit no command.
pub open spec fn is_canonical(msg: Msg) -> bool {
    match msg {
        Msg::LocomotiveSpeed(_, speed) => speed <= 127,
        Msg::ControlSpeed(_, speed) => speed <= 127,
        Msg::LocomotiveLoad(load) => load <= 127,
        Msg::BinaryState(addr, _) => addr <= 127,
        Msg::CVByteCheck { addr, .. } => addr >= 128,
        Msg::CVBitManipulation { addr, position, .. } => addr >= 128 && position <= 7,
        Msg::CVByteSet { addr, .. } => addr >= 128,
        Msg::Unknown(bytes) => msg_parsed(bytes) is Unknown,
        _ => true,
    }
}

proof fn lemma_field_bits(x: u8, c: u8, v: u8, d: u8)
    by (bit_vector)
    ensures
        (x as i8) as u8 == x,
        x & 0x7F == x <==> x <= 127,
        x & 0x07 == x <==> x <= 7,
        (x & 0x7F) & 0x7F == x & 0x7F,
        (x & 0x07) & 0x07 == x & 0x07,
        0x80 | (x & 0x7F) == x <==> x >= 128,
        (0x80 | (x & 0x7F)) & 0x80 == 0x80,
        x & 0x80 == 0x80 <==> x >= 128,
        x & 0x80 != 0 <==> x >= 128,
        d == 0x80 || d == 0 ==> ((d | (x & 0x7F)) & 0x80 != 0 <==> d == 0x80),
        d == 0x80 || d == 0 ==> ((d | (x & 0x7F)) & 0x80 == 0x80 <==> d == 0x80),
        d == 0x80 || d == 0 ==> (d | (x & 0x7F)) & 0x7F == x & 0x7F,
        x >= 128 ==> 0x80 | (x & 0x7F) == x,
        x < 128 ==> 0x00 | (x & 0x7F) == x,
        (c == 0x10 || c == 0) && (v == 0x08 || v == 0) ==> {
            let t = 0xE0 | c | v | (x & 0x07);
            &&& (t & 0x10 == 0x10 <==> c == 0x10)
            &&& (t & 0x08 == 0x08 <==> v == 0x08)
            &&& t & 0x07 == x & 0x07
        },
        0xE0 | (if x & 0x10 == 0x10 { 0x10u8 } else { 0u8 }) | (if x & 0x08 == 0x08 { 0x08u8 } else { 0u8 }) | (x & 0x07) == x | 0xE0,
{
}

proof fn lemma_signed_bits(i: i8)
    by (bit_vector)
    ensures
        (i as u8) as i8 == i,
{
}

/// Reading the bytes of a message gives the message back exactly when it is
/// canonical.
pub proof fn lemma_msg_round_trip(msg: Msg)
    ensures
        msg_parsed(msg_bytes(msg)) == msg <==> is_canonical(msg),
{
    let bytes = msg_bytes(msg);
    match msg {
        Msg::SpeedDiff(i) => lemma_signed_bits(i),
        Msg::MotorPower(i) => lemma_signed_bits(i),
        Msg::LocomotiveSpeed(dir, x) => lemma_field_bits(x, 0, 0, dir.encoded()),
        Msg::ControlSpeed(dir, x) => lemma_field_bits(x, 0, 0, dir.encoded()),
        Msg::LocomotiveLoad(x) => lemma_field_bits(x, 0, 0, 0),
        Msg::Analog(num, _) => num.lemma_number_round_trip(),
        Msg::FunctionGroup(num, data) => {
            num.lemma_number_round_trip();
            lemma_group_byte_conversions(0, data);
        },
        Msg::BinaryState(x, on) => lemma_field_bits(x, 0, 0, flag_bit(on, 0x80)),
        Msg::CVByteCheck { addr, .. } => lemma_field_bits(addr, 0, 0, 0),
        Msg::CVBitManipulation { addr, check, value, position } => {
            lemma_field_bits(addr, 0, 0, 0);
            lemma_field_bits(position, flag_bit(check, 0x10), flag_bit(value, 0x08), 0);
        },
        Msg::CVByteSet { addr, .. } => lemma_field_bits(addr, 0, 0, 0),
        _ => {},
    }
}

/// The bytes that writing the message read from `bytes` gives: the bytes
/// themselves, with the third byte cleared in a two-byte message, the load
/// of `LocomotiveLoad` cut to seven bits, and the three top bits of the
/// third byte of `CVBitManipulation` set.
pub open spec fn normalized(bytes: [u8; 3]) -> [u8; 3] {
    let msg = msg_parsed(bytes);
    if msg is CVBitManipulation {
        [bytes[0], bytes[1], bytes[2] | 0xE0]
    } else if msg.spec_len() == 3 {
        bytes
    } else if msg is LocomotiveLoad {
        [bytes[0], bytes[1] & MASK7, 0x00u8]
    } else {
        [bytes[0], bytes[1], 0x00u8]
    }
}

/// Writing the message read from three bytes gives the normalized bytes.
pub proof fn lemma_parse_and_back(bytes: [u8; 3])
    ensures
        msg_bytes(msg_parsed(bytes)) == normalized(bytes),
{
    let msg = msg_parsed(bytes);
    let data = bytes[1];
    lemma_field_bits(data, 0, 0, 0);
    lemma_field_bits(bytes[2], 0, 0, 0);
    match msg {
        Msg::Analog(num, _) => {},
        Msg::FunctionGroup(num, g) => {
            lemma_group_byte_conversions(data, g);
        },
        _ => {},
    }
    assert(msg_bytes(msg) =~= normalized(bytes));
}

/// The first byte of a message other than `Unknown` tells the length of the
/// message, and the third byte of a message of two bytes is zero.
pub proof fn lemma_length_in_first_byte(msg: Msg)
    requires
        !(msg is Unknown),
    ensures
        length_of_command(msg_bytes(msg)[0]) == msg.spec_len(),
        msg.spec_len() == 2 ==> msg_bytes(msg)[2] == 0,
{
}

} // verus!
