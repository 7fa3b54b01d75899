//! The part of the XpressNet message set that maps to the drive model:
//! what a command station sends, and what a device asks of it.

use vstd::prelude::*;
use crate::base::{Bits, from_le16, le16, put_with_xor, with_xor, xor_all, xor_prefix};
use crate::base::drive::{Direction, Speed};
use crate::base::functions::{Function, FunctionGroupNumber};
use crate::dcc::direction::{DccDirection, advanced_direction, advanced_direction_byte};
use crate::dcc::function::FunctionGroupByte;
use crate::dcc::speed::{DccSpeed, speed_byte, speed_from_128, speed_from_14, speed_from_28};

verus! {

/// The track power is off after an emergency.
pub const EMERGENCY_OFF: u8 = 0b0000_0001;

/// All locomotives are stopped.
pub const EMERGENCY_STOP: u8 = 0b0000_0010;

/// The station starts the locomotives by itself.
pub const AUTOMATIC_START: u8 = 0b0000_0100;

/// The station is in service mode.
pub const SERVICE_MODE: u8 = 0b0000_1000;

/// The station is powering up.
pub const POWER_UP: u8 = 0b0100_0000;

/// The station found an error in its memory.
pub const RAM_ERROR: u8 = 0b1000_0000;

/// The state flags of a command station.
#[derive(Clone, Copy, Debug, PartialEq, Eq, Structural)]
pub struct CentralState {
    bits: u8,
}

impl CentralState {
    /// The flags with no flag set.
    pub fn empty() -> (state: CentralState)
        ensures
            state.spec_bits() == 0,
    {
        CentralState { bits: 0 }
    }

    /// The flags with the raw value `bits`.
    pub fn from_bits(bits: u8) -> (state: CentralState)
        ensures
            state.spec_bits() == bits,
    {
        CentralState { bits }
    }

    /// Whether every flag of `flags` is set.
    pub fn contains(&self, flags: u8) -> (all: bool)
        ensures
            all == (self.spec_bits() & flags == flags),
    {
        self.bits & flags == flags
    }
}

impl Bits<u8> for CentralState {
    closed spec fn spec_bits(&self) -> u8 {
        self.bits
    }

    fn bits(&self) -> (b: u8) {
        self.bits
    }
}

#[derive(Clone, Copy, Debug, PartialEq, Eq, Structural)]
pub struct Accessory {
    pub address: u8,
    pub data: u8,
}

#[derive(Clone, Copy, Debug, PartialEq, Eq, Structural)]
pub enum SearchResult {
    Loco(u16),
    DoubleHeading(u16),
    ConsistBase(u16),
    Consist(u16),
    Nothing,
}

#[derive(Clone, Copy, Debug, PartialEq, Eq, Structural)]
pub enum CentralError {
    ConsistError,
    ConsistOccupied,
    AlreadyInConsist,
    ConsistSpeedNotZero,
    LocoNotInConsist,
    NoConsistBase,
    DeleteNotPossible,
    StackOverflow,
}

/// What a command station sends to its devices.
#[allow(inconsistent_fields)]
#[derive(Debug)]
pub enum CentralMessage<S: Bits<u8>> {
    TrackPowerOn,
    TrackPowerOff,
    EmergencyStop,
    ProgrammingModeOn,
    FeedbackBroadcast([(u8, u8); 7]),
    ProgrammingShortCircuit,
    ProgrammingNoData,
    ProgrammingBusy,
    ProgrammingReady,
    ProgrammingDataPaged(u8, u8),
    ProgrammingDataDirect(u16, u8),
    Version(u8, u8),
    State(S),
    TransferError,
    StationBusy,
    UnknownCommand,
    AccessoryResponse(Accessory),
    LocoInformation {
        is_free: bool,
        direction: Direction,
        speed: Speed,
        f0: FunctionGroupByte,
        f1: FunctionGroupByte,
    },
    FunctionState { f3: FunctionGroupByte, f4: FunctionGroupByte },
    LocoConsistInformation {
        is_free: bool,
        direction: Direction,
        speed: Speed,
        f0: FunctionGroupByte,
        f1: FunctionGroupByte,
        consist_address: u8,
    },
    LocoConsistBaseInformation { is_free: bool, direction: Direction, speed: Speed },
    LocoDoubleHeadingInformation {
        is_free: bool,
        direction: Direction,
        speed: Speed,
        f0: FunctionGroupByte,
        f1: FunctionGroupByte,
        other_address: u16,
    },
    LocoOccupied(u16),
    FunctionToggled0 { f0: FunctionGroupByte, f1: FunctionGroupByte },
    FunctionToggled1 { f2: FunctionGroupByte, f3: FunctionGroupByte },
    SearchResult(SearchResult),
    Error(CentralError),
    Z21LocoInformation {
        loco_address: u16,
        is_free: bool,
        direction: Direction,
        speed: Speed,
        f0: FunctionGroupByte,
        f1: FunctionGroupByte,
        f2: FunctionGroupByte,
        f3: FunctionGroupByte,
        double_heading: bool,
        smart_search: bool,
    },
}

#[derive(Clone, Copy, Debug, PartialEq, Eq, Structural)]
pub enum Error {
    /// The bytes fit no known command, or their XOR byte is wrong.
    ParseError,
}

/// `bit` if `flag` holds, else nothing.
pub open spec fn flag_bit(flag: bool, bit: u8) -> u8 {
    if flag {
        bit
    } else {
        0
    }
}

/// The code of the speed format in a locomotive information.
pub open spec fn speed_code(speed: Speed) -> u8 {
    match speed {
        Speed::Steps14(_) => 0,
        Speed::Steps28(_) => 2,
        _ => 4,
    }
}

/// The bytes of a message of the station before their XOR byte, for the
/// messages that can be sent.
pub open spec fn central_body<S: Bits<u8>>(msg: CentralMessage<S>) -> Option<Seq<u8>> {
    match msg {
        CentralMessage::TrackPowerOn => Some(seq![0x61u8, 0x01u8]),
        CentralMessage::TrackPowerOff => Some(seq![0x61u8, 0x00u8]),
        CentralMessage::EmergencyStop => Some(seq![0x81u8, 0x00u8]),
        CentralMessage::Version(u, l) => Some(seq![0x63u8, 0x21u8, u, l]),
        CentralMessage::State(state) => Some(seq![0x62u8, 0x22u8, state.spec_bits()]),
        CentralMessage::TransferError => Some(seq![0x61u8, 0x80u8]),
        CentralMessage::StationBusy => Some(seq![0x61u8, 0x81u8]),
        CentralMessage::UnknownCommand => Some(seq![0x61u8, 0x82u8]),
        CentralMessage::Z21LocoInformation {
            loco_address,
            is_free,
            direction,
            speed,
            f0,
            f1,
            f2,
            f3,
            double_heading,
            smart_search,
        } => Some(
            seq![
                0xEFu8,
                le16(loco_address)[0],
                le16(loco_address)[1],
                flag_bit(is_free, 0x08) | speed_code(speed),
                advanced_direction_byte(direction) | speed_byte(speed),
                (f0@ & 0x3F) | flag_bit(smart_search, 0x20) | flag_bit(double_heading, 0x40),
                f1@,
                f2@,
                f3@,
            ],
        ),
        _ => None,
    }
}

impl<S: Bits<u8>> CentralMessage<S> {
    /// The bytes of the message on the wire, XOR byte included, if the
    /// message can be sent.
    pub open spec fn wire(self) -> Option<Seq<u8>> {
        match central_body(self) {
            Some(body) => Some(with_xor(body)),
            None => None,
        }
    }

    /// Whether the message can be sent.
    pub fn is_sendable(&self) -> (yes: bool)
        ensures
            yes == self.wire() is Some,
    {
        match self {
            CentralMessage::TrackPowerOn
            | CentralMessage::TrackPowerOff
            | CentralMessage::EmergencyStop
            | CentralMessage::Version(_, _)
            | CentralMessage::State(_)
            | CentralMessage::TransferError
            | CentralMessage::StationBusy
            | CentralMessage::UnknownCommand
            | CentralMessage::Z21LocoInformation { .. } => true,
            _ => false,
        }
    }

    /// Writes the message with its XOR byte to the start of `buf` and
    /// returns the number of bytes written.
    pub fn to_buf(&self, buf: &mut [u8]) -> (n: usize)
        requires
            self.wire() is Some,
            old(buf)@.len() >= self.wire().unwrap().len(),
        ensures
            n == self.wire().unwrap().len(),
            final(buf)@.len() == old(buf)@.len(),
            final(buf)@.take(n as int) == self.wire().unwrap(),
            final(buf)@.skip(n as int) == old(buf)@.skip(n as int),
    {
        match self {
            CentralMessage::TrackPowerOn => Self::put2(buf, 0x61, 0x01),
            CentralMessage::TrackPowerOff => Self::put2(buf, 0x61, 0x00),
            CentralMessage::EmergencyStop => Self::put2(buf, 0x81, 0x00),
            CentralMessage::Version(u, l) => {
                let body: [u8; 4] = [0x63, 0x21, *u, *l];
                proof {
                    assert(body@ =~= central_body(*self).unwrap());
                }
                put_with_xor(buf, body.as_slice())
            },
            CentralMessage::State(state) => {
                let body: [u8; 3] = [0x62, 0x22, state.bits()];
                proof {
                    assert(body@ =~= central_body(*self).unwrap());
                }
                put_with_xor(buf, body.as_slice())
            },
            CentralMessage::TransferError => Self::put2(buf, 0x61, 0x80),
            CentralMessage::StationBusy => Self::put2(buf, 0x61, 0x81),
            CentralMessage::UnknownCommand => Self::put2(buf, 0x61, 0x82),
            CentralMessage::Z21LocoInformation {
                loco_address,
                is_free,
                direction,
                speed,
                f0,
                f1,
                f2,
                f3,
                double_heading,
                smart_search,
            } => {
                let code: u8 = match speed {
                    Speed::Steps14(_) => 0,
                    Speed::Steps28(_) => 2,
                    _ => 4,
                };
                let free: u8 = if *is_free {
                    0x08
                } else {
                    0
                };
                let smart: u8 = if *smart_search {
                    0x20
                } else {
                    0
                };
                let double: u8 = if *double_heading {
                    0x40
                } else {
                    0
                };
                let body: [u8; 9] = [
                    0xEF,
                    (*loco_address & 0xFF) as u8,
                    (*loco_address >> 8) as u8,
                    free | code,
                    direction.to_advanced_byte() | speed.to_byte(),
                    (f0.data() & 0x3F) | smart | double,
                    f1.data(),
                    f2.data(),
                    f3.data(),
                ];
                proof {
                    assert(body@ =~= central_body(*self).unwrap());
                }
                put_with_xor(buf, body.as_slice())
            },
            _ => 0,
        }
    }

    fn put2(buf: &mut [u8], a: u8, b: u8) -> (n: usize)
        requires
            old(buf)@.len() >= 3,
        ensures
            n == 3,
            final(buf)@.len() == old(buf)@.len(),
            final(buf)@.take(3) == with_xor(seq![a, b]),
            final(buf)@.skip(3) == old(buf)@.skip(3),
    {
        let body: [u8; 2] = [a, b];
        proof {
            assert(body@ =~= seq![a, b]);
        }
        put_with_xor(buf, body.as_slice())
    }
}

#[derive(Clone, Copy, Debug, PartialEq, Eq, Structural)]
pub enum RefreshMode {
    F0ToF4,
    F0ToF8,
    F0ToF12,
    F0ToF20,
    F0ToF28,
}

impl RefreshMode {
    /// The code of the mode on the wire.
    pub fn code(&self) -> (code: u8)
        ensures
            code == match self {
                RefreshMode::F0ToF4 => 0x0u8,
                RefreshMode::F0ToF8 => 0x1u8,
                RefreshMode::F0ToF12 => 0x3u8,
                RefreshMode::F0ToF20 => 0x7u8,
                RefreshMode::F0ToF28 => 0xFu8,
            },
    {
        match self {
            RefreshMode::F0ToF4 => 0x0,
            RefreshMode::F0ToF8 => 0x1,
            RefreshMode::F0ToF12 => 0x3,
            RefreshMode::F0ToF20 => 0x7,
            RefreshMode::F0ToF28 => 0xF,
        }
    }
}

/// What is to be done with a function.
#[derive(Clone, Copy, Debug, PartialEq, Eq, Structural)]
pub enum FunctionSwitch {
    On,
    Off,
    Toggle,
}

/// The switch in the two top bits of a byte, where they are not both set.
pub open spec fn switch_parsed(byte: u8) -> Option<FunctionSwitch> {
    if byte & 0xC0 == 0x00 {
        Some(FunctionSwitch::Off)
    } else if byte & 0xC0 == 0x40 {
        Some(FunctionSwitch::On)
    } else if byte & 0xC0 == 0x80 {
        Some(FunctionSwitch::Toggle)
    } else {
        None
    }
}

impl FunctionSwitch {
    /// The byte that stands for the switch.
    pub open spec fn spec_to_byte(&self) -> u8 {
        match self {
            FunctionSwitch::Off => 0x00,
            FunctionSwitch::On => 0x40,
            FunctionSwitch::Toggle => 0x80,
        }
    }

    /// The switch in the two top bits of `byte`, which must not both be
    /// set.
    pub fn from_byte(byte: u8) -> (switch: FunctionSwitch)
        requires
            byte & 0xC0 != 0xC0,
        ensures
            Some(switch) == switch_parsed(byte),
    {
        proof {
            assert(byte & 0xC0 == 0x00 || byte & 0xC0 == 0x40 || byte & 0xC0 == 0x80 || byte & 0xC0
                == 0xC0) by (bit_vector);
        }
        let top: u8 = byte & 0xC0;
        if top == 0x00 {
            FunctionSwitch::Off
        } else if top == 0x40 {
            FunctionSwitch::On
        } else {
            FunctionSwitch::Toggle
        }
    }

    #[verifier::when_used_as_spec(spec_to_byte)]
    pub fn to_byte(&self) -> (byte: u8)
        ensures
            byte == self.spec_to_byte(),
    {
        match self {
            FunctionSwitch::Off => 0x00,
            FunctionSwitch::On => 0x40,
            FunctionSwitch::Toggle => 0x80,
        }
    }

    /// The byte of a switch reads back as the switch.
    pub proof fn lemma_switch_round_trip(self)
        ensures
            switch_parsed(self.spec_to_byte()) == Some(self),
    {
        assert(0x00u8 & 0xC0 == 0x00 && 0x40u8 & 0xC0 == 0x40 && 0x80u8 & 0xC0 == 0x80)
            by (bit_vector);
    }
}

/// What a device asks of a command station.
#[allow(inconsistent_fields)]
#[derive(Clone, Copy, Debug, PartialEq, Eq)]
pub enum DeviceMessage {
    TrackPowerOn,
    TrackPowerOff,
    EmergencyStop,
    LocoEmergencyStop(u16),
    ProgrammingReadRegister(u8),
    ProgrammingReadDirect(u16),
    ProgrammingReadPaged(u8),
    ProgrammingGetResult,
    ProgrammingWriteRegister(u8, u8),
    ProgrammingWriteDirect(u16, u8),
    ProgrammingWritePaged(u8, u8),
    GetVersion,
    GetState,
    GetAccessory(Accessory),
    ControlAccessory(Accessory),
    GetLocoInformation(u16),
    GetFunctionToggled0(u16),
    GetFunctionToggled1(u16),
    GetFunctionState(u16),
    LocoDrive(u16, Direction, Speed),
    SetFunctionGroup(FunctionGroupNumber, FunctionGroupByte),
    SetFunctionToggled(FunctionGroupNumber, FunctionGroupByte),
    Z21SetFunction(u16, FunctionSwitch, Function),
    SetRefreshMode(RefreshMode),
    AddDoubleHeading(u16, u16),
    RemoveDoubleHeading(u16),
    ProgrammingOnMainWrite { loco_address: u16, cv_address: u16, value: u8 },
    ProgrammingOnMainRead { loco_address: u16, cv_address: u16, value: u8 },
    ProgrammingOnMainWriteBit { loco_address: u16, cv_address: u16, position: u8, value: bool },
    AddConsist { inverted: bool, loco_address: u16, base_address: u8 },
    RemoveConsist { loco_address: u16, base_address: u8 },
    SearchConsistMember { forward: bool, loco_address: u16, base_address: u8 },
    SearchConsistBase { forward: bool, base_address: u8 },
    SearchLocoInStack { forward: bool, loco_address: u16 },
    RemoveFromStack(u16),
}

/// `msg` if the byte at `len - 1` is the XOR of the bytes before it, else a
/// parse error.
pub open spec fn checked(bytes: Seq<u8>, len: int, msg: DeviceMessage) -> Result<
    DeviceMessage,
    Error,
>
    recommends
        1 <= len <= bytes.len(),
{
    if xor_all(bytes.take(len - 1)) == bytes[len - 1] {
        Ok(msg)
    } else {
        Err(Error::ParseError)
    }
}

/// Whether `bytes` begins with the three bytes `a`, `b`, `c`.
pub open spec fn begins3(bytes: Seq<u8>, a: u8, b: u8, c: u8) -> bool {
    bytes.len() >= 3 && bytes[0] == a && bytes[1] == b && bytes[2] == c
}

/// Whether `bytes` holds a command of six bytes that begins with `0xE4` and
/// `kind`.
pub open spec fn is_loco_command(bytes: Seq<u8>, kind: u8) -> bool {
    bytes.len() >= 6 && bytes[0] == 0xE4 && bytes[1] == kind
}

/// The message that `bytes` begin with, or a parse error.  The three fixed
/// commands and the emergency stop are known by their bytes alone; the
/// commands that carry an address are checked against their XOR byte.
pub open spec fn device_parsed(bytes: Seq<u8>) -> Result<DeviceMessage, Error> {
    if begins3(bytes, 0x21, 0x81, 0xA0) {
        Ok(DeviceMessage::TrackPowerOn)
    } else if begins3(bytes, 0x21, 0x80, 0xA1) {
        Ok(DeviceMessage::TrackPowerOff)
    } else if bytes.len() >= 2 && bytes[0] == 0x80 && bytes[1] == 0x80 {
        Ok(DeviceMessage::EmergencyStop)
    } else if bytes.len() >= 4 && bytes[0] == 0x92 {
        checked(bytes, 4, DeviceMessage::LocoEmergencyStop(from_le16(bytes[1], bytes[2])))
    } else if begins3(bytes, 0x21, 0x21, 0x00) {
        Ok(DeviceMessage::GetVersion)
    } else if begins3(bytes, 0x21, 0x24, 0x05) {
        Ok(DeviceMessage::GetState)
    } else if is_loco_command(bytes, 0x10) {
        checked(
            bytes,
            6,
            DeviceMessage::LocoDrive(
                from_le16(bytes[2], bytes[3]),
                advanced_direction(bytes[4]),
                speed_from_14(bytes[4]),
            ),
        )
    } else if is_loco_command(bytes, 0x12) {
        checked(
            bytes,
            6,
            DeviceMessage::LocoDrive(
                from_le16(bytes[2], bytes[3]),
                advanced_direction(bytes[4]),
                speed_from_28(bytes[4]),
            ),
        )
    } else if is_loco_command(bytes, 0x13) {
        checked(
            bytes,
            6,
            DeviceMessage::LocoDrive(
                from_le16(bytes[2], bytes[3]),
                advanced_direction(bytes[4]),
                speed_from_128(bytes[4]),
            ),
        )
    } else if is_loco_command(bytes, 0xF8) && switch_parsed(bytes[4]) is Some
        && Function::spec_from_u8(bytes[4] & 0x3F) is Some {
        checked(
            bytes,
            6,
            DeviceMessage::Z21SetFunction(
                from_le16(bytes[2], bytes[3]),
                switch_parsed(bytes[4]).unwrap(),
                Function::spec_from_u8(bytes[4] & 0x3F).unwrap(),
            ),
        )
    } else {
        Err(Error::ParseError)
    }
}

fn check_xor(bytes: &[u8], len: usize, msg: DeviceMessage) -> (r: Result<DeviceMessage, Error>)
    requires
        1 <= len <= bytes@.len(),
    ensures
        r == checked(bytes@, len as int, msg),
{
    if xor_prefix(bytes, len - 1) == bytes[len - 1] {
        Ok(msg)
    } else {
        Err(Error::ParseError)
    }
}

fn word(low: u8, high: u8) -> (x: u16)
    ensures
        x == from_le16(low, high),
{
    (low as u16) | ((high as u16) << 8)
}

impl DeviceMessage {
    /// Reads the message at the start of `bytes`.
    pub fn from_bytes(bytes: &[u8]) -> (r: Result<DeviceMessage, Error>)
        ensures
            r == device_parsed(bytes@),
    {
        let n: usize = bytes.len();
        if n >= 3 && bytes[0] == 0x21 && bytes[1] == 0x81 && bytes[2] == 0xA0 {
            Ok(DeviceMessage::TrackPowerOn)
        } else if n >= 3 && bytes[0] == 0x21 && bytes[1] == 0x80 && bytes[2] == 0xA1 {
            Ok(DeviceMessage::TrackPowerOff)
        } else if n >= 2 && bytes[0] == 0x80 && bytes[1] == 0x80 {
            Ok(DeviceMessage::EmergencyStop)
        } else if n >= 4 && bytes[0] == 0x92 {
            check_xor(bytes, 4, DeviceMessage::LocoEmergencyStop(word(bytes[1], bytes[2])))
        } else if n >= 3 && bytes[0] == 0x21 && bytes[1] == 0x21 && bytes[2] == 0x00 {
            Ok(DeviceMessage::GetVersion)
        } else if n >= 3 && bytes[0] == 0x21 && bytes[1] == 0x24 && bytes[2] == 0x05 {
            Ok(DeviceMessage::GetState)
        } else if n >= 6 && bytes[0] == 0xE4 && bytes[1] == 0x10 {
            let rv: u8 = bytes[4];
            check_xor(
                bytes,
                6,
                DeviceMessage::LocoDrive(
                    word(bytes[2], bytes[3]),
                    Direction::from_advanced_byte(rv),
                    Speed::from_byte_14_steps(rv),
                ),
            )
        } else if n >= 6 && bytes[0] == 0xE4 && bytes[1] == 0x12 {
            let rv: u8 = bytes[4];
            check_xor(
                bytes,
                6,
                DeviceMessage::LocoDrive(
                    word(bytes[2], bytes[3]),
                    Direction::from_advanced_byte(rv),
                    Speed::from_byte_28_steps(rv),
                ),
            )
        } else if n >= 6 && bytes[0] == 0xE4 && bytes[1] == 0x13 {
            let rv: u8 = bytes[4];
            check_xor(
                bytes,
                6,
                DeviceMessage::LocoDrive(
                    word(bytes[2], bytes[3]),
                    Direction::from_advanced_byte(rv),
                    Speed::from_byte_128_steps(rv),
                ),
            )
        } else if n >= 6 && bytes[0] == 0xE4 && bytes[1] == 0xF8 {
            let b: u8 = bytes[4];
            if b & 0xC0 == 0xC0 {
                return Err(Error::ParseError);
            }
            match Function::from_u8(b & 0x3F) {
                Some(function) => check_xor(
                    bytes,
                    6,
                    DeviceMessage::Z21SetFunction(
                        word(bytes[2], bytes[3]),
                        FunctionSwitch::from_byte(b),
                        function,
                    ),
                ),
                None => Err(Error::ParseError),
            }
        } else {
            Err(Error::ParseError)
        }
    }
}

} // verus!
