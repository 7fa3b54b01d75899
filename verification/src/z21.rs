//! The framing of the Z21 LAN protocol around XpressNet messages.

use vstd::prelude::*;
use vstd::slice::slice_subrange;
use crate::base::{Bits, from_le16, le16, put};
use crate::xpressnet::{DeviceMessage, device_parsed};

verus! {

/// The station is too hot.
pub const HIGH_TEMPERATURE: u8 = 0b0000_0001;

/// The supply voltage is too low.
pub const POWER_LOST: u8 = 0b0000_0010;

/// A short circuit at the external booster.
pub const SHORT_CIRCUIT_EXTERNAL: u8 = 0b0000_0100;

/// A short circuit at the internal booster.
pub const SHORT_CIRCUIT_INTERNAL: u8 = 0b0000_1000;

/// The track power is off after an emergency.
pub const EMERGENCY_OFF: u8 = 0b0000_0001;

/// All locomotives are stopped.
pub const EMERGENCY_STOP: u8 = 0b0000_0010;

/// A short circuit on the track.
pub const SHORT_CIRCUIT: u8 = 0b0000_0100;

/// The station is in programming mode.
pub const PROGRAMMING_MODE: u8 = 0b0010_0000;

/// The extended state flags of a station.
#[derive(Clone, Copy, Debug, PartialEq, Eq, Structural)]
pub struct CentralStateEx {
    pub bits: u8,
}

impl CentralStateEx {
    /// The flags with no flag set.
    pub fn empty() -> (state: CentralStateEx)
        ensures
            state.bits == 0,
    {
        CentralStateEx { bits: 0 }
    }
}

/// The state flags of a station.
#[derive(Clone, Copy, Debug, PartialEq, Eq, Structural)]
pub struct CentralState {
    pub bits: u8,
}

impl CentralState {
    /// The flags with no flag set.
    pub fn empty() -> (state: CentralState)
        ensures
            state.bits == 0,
    {
        CentralState { bits: 0 }
    }
}

impl Bits<u8> for CentralState {
    open spec fn spec_bits(&self) -> u8 {
        self.bits
    }

    fn bits(&self) -> (b: u8) {
        self.bits
    }
}

/// The kinds of messages that a client has subscribed to.
#[derive(Clone, Copy, Debug, PartialEq, Eq, Structural)]
pub struct BroadcastFlags {
    pub bits: u32,
}

#[derive(Clone, Copy, Debug, PartialEq, Eq, Structural)]
pub enum HardwareType {
    Z21Old,
    Z21New,
    SmartRail,
    Z21Small,
    Z21Start,
    Custom(u32),
}

#[derive(Clone, Copy, Debug, PartialEq, Eq, Structural)]
pub struct FirmwareVersion {
    pub major: u8,
    pub minor: u8,
}

/// What a station sends to a client.
#[derive(Debug)]
pub enum CentralMessage {
    HardwareInfo(HardwareType, FirmwareVersion),
    SerialNumber(u32),
    SystemState {
        main_current: i16,
        prog_current: i16,
        filtered_main_current: i16,
        temperature: i16,
        supply_voltage: u16,
        vcc_voltage: u16,
        central_state: CentralState,
        central_state_ex: CentralStateEx,
    },
    BroadcastFlags(BroadcastFlags),
    XpressNet(crate::xpressnet::CentralMessage<CentralState>),
}

/// The four bytes of `x`, lowest byte first.
pub open spec fn le32(x: u32) -> Seq<u8> {
    seq![
        (x & 0xFF) as u8,
        ((x >> 8) & 0xFF) as u8,
        ((x >> 16) & 0xFF) as u8,
        ((x >> 24) & 0xFF) as u8,
    ]
}

/// The bytes of a message of the station, for the messages that can be
/// sent.  An XpressNet message is framed by the length of the whole frame
/// and the header `0x40 0x00`.
pub open spec fn central_bytes(msg: CentralMessage) -> Option<Seq<u8>> {
    match msg {
        CentralMessage::SystemState {
            main_current,
            prog_current,
            filtered_main_current,
            temperature,
            supply_voltage,
            vcc_voltage,
            central_state,
            central_state_ex,
        } => Some(
            seq![0x14u8, 0x00u8, 0x84u8, 0x00u8] + le16(main_current as u16) + le16(
                prog_current as u16,
            ) + le16(filtered_main_current as u16) + le16(temperature as u16) + le16(
                supply_voltage,
            ) + le16(vcc_voltage) + seq![central_state.bits, central_state_ex.bits, 0x00u8, 0x00u8],
        ),
        CentralMessage::SerialNumber(num) => Some(seq![0x10u8, 0x11u8] + le32(num)),
        CentralMessage::XpressNet(inner) => match inner.wire() {
            Some(wire) => Some(le16((4 + wire.len()) as u16) + seq![0x40u8, 0x00u8] + wire),
            None => None,
        },
        _ => None,
    }
}

fn word_bytes(x: u16) -> (bytes: [u8; 2])
    ensures
        bytes@ == le16(x),
{
    let bytes: [u8; 2] = [(x & 0xFF) as u8, (x >> 8) as u8];
    proof {
        assert(bytes@ =~= le16(x));
    }
    bytes
}

impl CentralMessage {
    /// Whether the message can be sent.
    pub fn is_sendable(&self) -> (yes: bool)
        ensures
            yes == central_bytes(*self) is Some,
    {
        match self {
            CentralMessage::SystemState { .. } => true,
            CentralMessage::SerialNumber(_) => true,
            CentralMessage::XpressNet(inner) => inner.is_sendable(),
            _ => false,
        }
    }

    /// Writes the message to the start of `buf` and returns the number of
    /// bytes written.
    pub fn to_buf(&self, buf: &mut [u8]) -> (n: usize)
        requires
            central_bytes(*self) is Some,
            old(buf)@.len() >= central_bytes(*self).unwrap().len(),
        ensures
            n == central_bytes(*self).unwrap().len(),
            final(buf)@.len() == old(buf)@.len(),
            final(buf)@.take(n as int) == central_bytes(*self).unwrap(),
            final(buf)@.skip(n as int) == old(buf)@.skip(n as int),
    {
        match self {
            CentralMessage::SystemState {
                main_current,
                prog_current,
                filtered_main_current,
                temperature,
                supply_voltage,
                vcc_voltage,
                central_state,
                central_state_ex,
            } => {
                let head: [u8; 4] = [0x14, 0x00, 0x84, 0x00];
                let tail: [u8; 4] = [central_state.bits, central_state_ex.bits, 0x00, 0x00];
                put(buf, 0, head.as_slice());
                put(buf, 4, word_bytes(*main_current as u16).as_slice());
                put(buf, 6, word_bytes(*prog_current as u16).as_slice());
                put(buf, 8, word_bytes(*filtered_main_current as u16).as_slice());
                put(buf, 10, word_bytes(*temperature as u16).as_slice());
                put(buf, 12, word_bytes(*supply_voltage).as_slice());
                put(buf, 14, word_bytes(*vcc_voltage).as_slice());
                put(buf, 16, tail.as_slice());
                proof {
                    assert(head@ =~= seq![0x14u8, 0x00u8, 0x84u8, 0x00u8]);
                    assert(tail@ =~= seq![
                        central_state.bits,
                        central_state_ex.bits,
                        0x00u8,
                        0x00u8,
                    ]);
                    assert(buf@.take(20) =~= central_bytes(*self).unwrap());
                    assert(buf@.skip(20) =~= old(buf)@.skip(20));
                }
                20
            },
            CentralMessage::SerialNumber(num) => {
                let bytes: [u8; 6] = [
                    0x10,
                    0x11,
                    (*num & 0xFF) as u8,
                    ((*num >> 8) & 0xFF) as u8,
                    ((*num >> 16) & 0xFF) as u8,
                    ((*num >> 24) & 0xFF) as u8,
                ];
                put(buf, 0, bytes.as_slice());
                proof {
                    assert(buf@.take(6) =~= central_bytes(*self).unwrap());
                    assert(buf@.skip(6) =~= old(buf)@.skip(6));
                }
                6
            },
            CentralMessage::XpressNet(inner) => {
                let mut frame: [u8; 16] = [0, 0, 0, 0, 0, 0, 0, 0, 0, 0, 0, 0, 0, 0, 0, 0];
                let len: usize = inner.to_buf(&mut frame);
                let size: usize = 4 + len;
                let header: [u8; 2] = [0x40, 0x00];
                put(buf, 0, word_bytes(size as u16).as_slice());
                put(buf, 2, header.as_slice());
                put(buf, 4, slice_subrange(frame.as_slice(), 0, len));
                proof {
                    assert(header@ =~= seq![0x40u8, 0x00u8]);
                    assert(frame@.subrange(0, len as int) =~= frame@.take(len as int));
                    assert(buf@.take(size as int) =~= central_bytes(*self).unwrap());
                    assert(buf@.skip(size as int) =~= old(buf)@.skip(size as int));
                }
                size
            },
            _ => 0,
        }
    }
}

/// What a client asks of a station.
#[derive(Clone, Copy, Debug, PartialEq, Eq)]
pub enum ClientMessage {
    GetHardwareInfo,
    GetSerialNumber,
    GetSystemState,
    GetBroadcastFlags,
    SetBroadcastFlags(BroadcastFlags),
    XpressNet(DeviceMessage),
}

#[derive(Clone, Copy, Debug, PartialEq, Eq, Structural)]
pub enum Error {
    Receive,
    Send,
    Bind,
    /// The frame is too short, its length does not fit, or its header is not
    /// known.
    ParseCommand,
    /// The XpressNet message in the frame could not be read.
    XpressNet(crate::xpressnet::Error),
}

impl From<crate::xpressnet::Error> for Error {
    fn from(e: crate::xpressnet::Error) -> (error: Error) {
        Error::XpressNet(e)
    }
}

impl vstd::std_specs::convert::FromSpecImpl<crate::xpressnet::Error> for Error {
    open spec fn obeys_from_spec() -> bool {
        true
    }

    open spec fn from_spec(e: crate::xpressnet::Error) -> Error {
        Error::XpressNet(e)
    }
}

/// The message in a frame.  A frame has at least four bytes: its length,
/// low byte first, and a header of two bytes.  An XpressNet frame holds its
/// message from the fifth byte up to its length, which must lie within the
/// bytes given.
pub open spec fn client_parsed(bytes: Seq<u8>) -> Result<ClientMessage, Error> {
    if bytes.len() < 4 {
        Err(Error::ParseCommand)
    } else {
        let len = from_le16(bytes[0], bytes[1]) as int;
        if bytes[2] == 0x40 && bytes[3] == 0x00 {
            if 4 <= len <= bytes.len() {
                match device_parsed(bytes.subrange(4, len)) {
                    Ok(msg) => Ok(ClientMessage::XpressNet(msg)),
                    Err(e) => Err(Error::XpressNet(e)),
                }
            } else {
                Err(Error::ParseCommand)
            }
        } else if bytes[2] == 0x85 && bytes[3] == 0x00 {
            Ok(ClientMessage::GetSystemState)
        } else if bytes[2] == 0x10 && bytes[3] == 0x00 {
            Ok(ClientMessage::GetSerialNumber)
        } else if bytes[2] == 0x1A && bytes[3] == 0x00 {
            Ok(ClientMessage::GetHardwareInfo)
        } else {
            Err(Error::ParseCommand)
        }
    }
}

impl ClientMessage {
    /// Reads the message in the frame `bytes`.
    pub fn from_bytes(bytes: &[u8]) -> (r: Result<ClientMessage, Error>)
        ensures
            r == client_parsed(bytes@),
    {
        if bytes.len() < 4 {
            return Err(Error::ParseCommand);
        }
        let len: usize = ((bytes[0] as u16) | ((bytes[1] as u16) << 8)) as usize;
        if bytes[2] == 0x40 && bytes[3] == 0x00 {
            if len < 4 || len > bytes.len() {
                return Err(Error::ParseCommand);
            }
            match DeviceMessage::from_bytes(slice_subrange(bytes, 4, len)) {
                Ok(msg) => Ok(ClientMessage::XpressNet(msg)),
                Err(e) => Err(Error::from(e)),
            }
        } else if bytes[2] == 0x85 && bytes[3] == 0x00 {
            Ok(ClientMessage::GetSystemState)
        } else if bytes[2] == 0x10 && bytes[3] == 0x00 {
            Ok(ClientMessage::GetSerialNumber)
        } else if bytes[2] == 0x1A && bytes[3] == 0x00 {
            Ok(ClientMessage::GetHardwareInfo)
        } else {
            Err(Error::ParseCommand)
        }
    }
}

/// The size of the frame buffers of a server.
pub const BUF_SIZE: usize = 64;

/// A socket with a buffer for the frame received last and one for the frame
/// to be sent.
pub struct Server<S> {
    pub socket: S,
    pub recv_buf: [u8; 64],
    pub send_buf: [u8; 64],
}

impl<S> Server<S> {
    pub fn new(socket: S) -> (server: Server<S>)
        ensures
            server.socket == socket,
            server.recv_buf@ == Seq::new(64, |i: int| 0u8),
            server.send_buf@ == Seq::new(64, |i: int| 0u8),
    {
        let server = Server { socket, recv_buf: [0u8; 64], send_buf: [0u8; 64] };
        proof {
            assert(server.recv_buf@ =~= Seq::new(64, |i: int| 0u8));
            assert(server.send_buf@ =~= Seq::new(64, |i: int| 0u8));
        }
        server
    }

    /// Writes `message` to the send buffer and returns the length of the
    /// frame.
    pub fn frame(&mut self, message: &CentralMessage) -> (n: usize)
        requires
            central_bytes(*message) is Some,
        ensures
            n == central_bytes(*message).unwrap().len(),
            n <= 64,
            final(self).send_buf@.take(n as int) == central_bytes(*message).unwrap(),
            final(self).send_buf@.skip(n as int) == old(self).send_buf@.skip(n as int),
            final(self).recv_buf == old(self).recv_buf,
            final(self).socket == old(self).socket,
    {
        proof {
            lemma_frame_fits(*message);
        }
        message.to_buf(&mut self.send_buf)
    }

    /// Reads the message in the first `num` bytes of the receive buffer.
    pub fn parse(&self, num: usize) -> (r: Result<ClientMessage, Error>)
        requires
            num <= 64,
        ensures
            r == client_parsed(self.recv_buf@.take(num as int)),
    {
        let bytes = slice_subrange(self.recv_buf.as_slice(), 0, num);
        proof {
            assert(bytes@ =~= self.recv_buf@.take(num as int));
        }
        ClientMessage::from_bytes(bytes)
    }
}

/// No frame of the station is longer than 20 bytes.
pub proof fn lemma_frame_fits(msg: CentralMessage)
    requires
        central_bytes(msg) is Some,
    ensures
        central_bytes(msg).unwrap().len() <= 20,
{
}

} // verus!
