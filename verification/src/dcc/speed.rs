//! The speed bits of the DCC speed commands.

use vstd::prelude::*;
use crate::base::drive::Speed;

verus! {

/// The lowest speed of the 128-step format: the first byte above those of
/// `Stop` and `EmergencyStop`.
pub const LOWEST_STEP_128: u8 = 0x02;

/// The speed bits of a command byte.  `Stop` is 0 and `EmergencyStop` is 1.
/// A 28-step speed has `(step / 8) & 0x0F` in bits 0 to 3 and
/// `(step / 4) & 1` in bit 4; a 14-step speed has `(step / 4) & 0x0F` in
/// bits 0 to 3.  A 128-step speed has `step / 2`, which fits in bits 0 to
/// 6, but for the steps 2 and 3, whose half is the byte of `EmergencyStop`:
/// they are sent as the lowest speed, so that no speed ever stops a
/// locomotive in an emergency.
pub open spec fn speed_byte(speed: Speed) -> u8 {
    match speed {
        Speed::Stop => 0x00,
        Speed::EmergencyStop => 0x01,
        Speed::Steps14(s) => (s / 4) & 0x0F,
        Speed::Steps28(s) => ((s / 8) & 0x0F) | (((s / 4) & 0x01) << 4),
        Speed::Steps128(s) => if s / 2 == 1 {
            LOWEST_STEP_128
        } else {
            s / 2
        },
    }
}

/// The speed in the low four bits of a 14-step command byte.
pub open spec fn speed_from_14(byte: u8) -> Speed {
    if byte & 0x0F == 0x00 {
        Speed::Stop
    } else if byte & 0x0F == 0x01 {
        Speed::EmergencyStop
    } else {
        Speed::Steps14(((byte & 0x0F) * 8) as u8)
    }
}

/// The speed in the low five bits of a 28-step command byte: the values 0
/// and 1 of the five bits are `Stop` and `EmergencyStop`; otherwise bits 0 to
/// 3 count eights and bit 4 counts a four.
pub open spec fn speed_from_28(byte: u8) -> Speed {
    if byte & 0x1F == 0x00 {
        Speed::Stop
    } else if byte & 0x1F == 0x01 {
        Speed::EmergencyStop
    } else {
        Speed::Steps28(((((byte & 0x0F) << 1) | ((byte >> 4) & 0x01)) * 4) as u8)
    }
}

/// The speed in the low seven bits of a 128-step command byte.
pub open spec fn speed_from_128(byte: u8) -> Speed {
    if byte & 0x7F == 0x00 {
        Speed::Stop
    } else if byte & 0x7F == 0x01 {
        Speed::EmergencyStop
    } else {
        Speed::Steps128(((byte & 0x7F) * 2) as u8)
    }
}

/// The ranges of the masked speed fields.
pub proof fn lemma_speed_fields(byte: u8)
    by (bit_vector)
    ensures
        byte & 0x0F <= 15,
        byte & 0x7F <= 127,
        ((byte & 0x0F) << 1) | ((byte >> 4) & 0x01) <= 31,
        (byte / 4) & 0x0F <= 15,
        ((byte / 8) & 0x0F) | (((byte / 4) & 0x01) << 4) <= 31,
        (byte / 2) & 0x7F == byte / 2,
{
}

/// The DCC wire form of a speed.
pub trait DccSpeed: Sized {
    /// The speed that this value stands for.
    spec fn speed(&self) -> Speed;

    fn from_byte_14_steps(byte: u8) -> (speed: Speed)
        ensures
            speed == speed_from_14(byte),
    ;

    fn from_byte_28_steps(byte: u8) -> (speed: Speed)
        ensures
            speed == speed_from_28(byte),
    ;

    fn from_byte_128_steps(byte: u8) -> (speed: Speed)
        ensures
            speed == speed_from_128(byte),
    ;

    fn to_byte(&self) -> (byte: u8)
        ensures
            byte == speed_byte(self.speed()),
            self.speed() is Steps128 ==> byte != 0x01 && byte <= 0x7F,
    ;
}

impl DccSpeed for Speed {
    open spec fn speed(&self) -> Speed {
        *self
    }

    fn from_byte_14_steps(byte: u8) -> (speed: Speed) {
        proof {
            lemma_speed_fields(byte);
        }
        let s: u8 = byte & 0x0F;
        if s == 0x00 {
            Speed::Stop
        } else if s == 0x01 {
            Speed::EmergencyStop
        } else {
            Speed::Steps14(s * 8)
        }
    }

    fn from_byte_28_steps(byte: u8) -> (speed: Speed) {
        proof {
            lemma_speed_fields(byte);
        }
        let s: u8 = byte & 0x1F;
        if s == 0x00 {
            Speed::Stop
        } else if s == 0x01 {
            Speed::EmergencyStop
        } else {
            let steps: u8 = ((byte & 0x0F) << 1) | ((byte >> 4) & 0x01);
            Speed::Steps28(steps * 4)
        }
    }

    fn from_byte_128_steps(byte: u8) -> (speed: Speed) {
        proof {
            lemma_speed_fields(byte);
        }
        let s: u8 = byte & 0x7F;
        if s == 0x00 {
            Speed::Stop
        } else if s == 0x01 {
            Speed::EmergencyStop
        } else {
            Speed::Steps128(s * 2)
        }
    }

    fn to_byte(&self) -> (byte: u8) {
        match self {
            Speed::Stop => 0x00,
            Speed::EmergencyStop => 0x01,
            Speed::Steps14(s) => (*s / 4) & 0x0F,
            Speed::Steps28(s) => ((*s / 8) & 0x0F) | (((*s / 4) & 0x01) << 4),
            Speed::Steps128(s) => {
                proof {
                    lemma_speed_fields(*s);
                }
                let half: u8 = *s / 2;
                if half == 1 {
                    LOWEST_STEP_128
                } else {
                    half & 0x7F
                }
            },
        }
    }
}

/// Whether a speed reads back from its 28-step byte: `Stop` and
/// `EmergencyStop` do, and a 28-step speed does when it is a multiple of 4
/// up to 124 other than 0 and 8, whose bytes are those of `Stop` and
/// `EmergencyStop`.
pub open spec fn survives_28(speed: Speed) -> bool {
    match speed {
        Speed::Stop => true,
        Speed::EmergencyStop => true,
        Speed::Steps28(s) => s % 4 == 0 && s <= 124 && s != 0 && s != 8,
        _ => false,
    }
}

/// Whether a speed reads back from its 128-step byte: `Stop` and
/// `EmergencyStop` do, and a 128-step speed does when it is even and at
/// least 4.  The steps below 2 are sent as `Stop`, the steps 2 and 3 as
/// the lowest speed, and an odd step as the even step below it.
pub open spec fn survives_128(speed: Speed) -> bool {
    match speed {
        Speed::Stop => true,
        Speed::EmergencyStop => true,
        Speed::Steps128(s) => s % 2 == 0 && s >= 4,
        _ => false,
    }
}

proof fn lemma_speed_28_bits(s: u8)
    by (bit_vector)
    ensures
        ({
            let b = ((s / 8) & 0x0F) | (((s / 4) & 0x01) << 4);
            &&& b & 0x1F == b
            &&& (b == 0 <==> s < 4 || s >= 128 && s < 132)
            &&& (b == 1 <==> s >= 8 && s < 12 || s >= 136 && s < 140)
            &&& ((((b & 0x0F) << 1) | ((b >> 4) & 0x01)) * 4) as u8 == (s / 4 * 4) % 128
        }),
        ((s / 4) & 0x0Fu8) & 0x1F == (s / 4) & 0x0F,
        0x00u8 & 0x1F == 0x00,
        0x01u8 & 0x1F == 0x01,
{
}

proof fn lemma_speed_128_bits(s: u8)
    by (bit_vector)
    ensures
        ({
            let b = (s / 2) & 0x7F;
            &&& b & 0x7F == b
            &&& b == s / 2
            &&& ((b & 0x7F) * 2) as u8 == s / 2 * 2
        }),
        0x00u8 & 0x7F == 0x00,
        0x01u8 & 0x7F == 0x01,
        0x02u8 & 0x7F == 0x02,
        ((0x02u8 & 0x7F) * 2) as u8 == 4,
{
}

/// A speed's byte reads back as the speed, in the 28-step and in the
/// 128-step format, exactly when `survives_28` and `survives_128` say so.
pub proof fn lemma_speed_round_trip(speed: Speed)
    ensures
        speed_from_28(speed_byte(speed)) == speed <==> survives_28(speed),
        speed_from_128(speed_byte(speed)) == speed <==> survives_128(speed),
{
    match speed {
        Speed::Stop => {
            lemma_speed_28_bits(0);
            lemma_speed_128_bits(0);
        },
        Speed::EmergencyStop => {
            lemma_speed_28_bits(0);
            lemma_speed_128_bits(0);
        },
        Speed::Steps14(s) => {
            lemma_speed_28_bits(s);
            lemma_speed_128_bits(s);
        },
        Speed::Steps28(s) => {
            lemma_speed_28_bits(s);
            lemma_speed_128_bits(s);
            lemma_speed_128_bits(speed_byte(speed));
            lemma_speed_fields(s);
        },
        Speed::Steps128(s) => {
            lemma_speed_28_bits(s);
            lemma_speed_128_bits(s);
        },
    }
}

/// No 128-step speed is sent as an emergency stop: its byte is never that
/// of `EmergencyStop`, and with either direction bit it reads back as
/// `Stop`, for the steps 0 and 1, or as a 128-step speed of at least 4.
pub proof fn lemma_steps128_never_emergency_stop(s: u8)
    ensures
        speed_byte(Speed::Steps128(s)) != speed_byte(Speed::EmergencyStop),
        speed_byte(Speed::Steps128(s)) <= 0x7F,
        speed_byte(Speed::Steps128(s)) == speed_byte(Speed::Stop) <==> s < 2,
        speed_from_128(speed_byte(Speed::Steps128(s))) != Speed::EmergencyStop,
        speed_from_128(0x80 | speed_byte(Speed::Steps128(s))) != Speed::EmergencyStop,
        s < 2 ==> speed_from_128(speed_byte(Speed::Steps128(s))) == Speed::Stop,
        2 <= s < 4 ==> speed_from_128(speed_byte(Speed::Steps128(s))) == Speed::Steps128(4),
        4 <= s ==> speed_from_128(speed_byte(Speed::Steps128(s))) == Speed::Steps128(
            (s / 2 * 2) as u8,
        ),
{
    lemma_speed_128_bits(s);
    lemma_high_bit(speed_byte(Speed::Steps128(s)));
}

proof fn lemma_high_bit(b: u8)
    by (bit_vector)
    requires
        b <= 0x7F,
    ensures
        (0x80 | b) & 0x7F == b,
        b & 0x7F == b,
{
}

} // verus!
