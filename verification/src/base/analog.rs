//! Analog channels of a SUSI module.

use vstd::prelude::*;

verus! {

#[derive(Clone, Copy, Debug, PartialEq, Eq, Structural)]
pub enum AnalogNumber {
    A0,
    A1,
    A2,
    A3,
    A4,
    A5,
    A6,
    A7,
}

impl AnalogNumber {
    /// The channel's number, 0 to 7.
    pub open spec fn spec_to_u8(&self) -> u8 {
        match self {
            AnalogNumber::A0 => 0,
            AnalogNumber::A1 => 1,
            AnalogNumber::A2 => 2,
            AnalogNumber::A3 => 3,
            AnalogNumber::A4 => 4,
            AnalogNumber::A5 => 5,
            AnalogNumber::A6 => 6,
            AnalogNumber::A7 => 7,
        }
    }

    /// The channel with number `n`, if there is one.
    pub open spec fn spec_from_u8(n: u8) -> Option<AnalogNumber> {
        match n {
            0 => Some(AnalogNumber::A0),
            1 => Some(AnalogNumber::A1),
            2 => Some(AnalogNumber::A2),
            3 => Some(AnalogNumber::A3),
            4 => Some(AnalogNumber::A4),
            5 => Some(AnalogNumber::A5),
            6 => Some(AnalogNumber::A6),
            7 => Some(AnalogNumber::A7),
            _ => None,
        }
    }

    #[verifier::when_used_as_spec(spec_to_u8)]
    pub fn to_u8(&self) -> (n: u8)
        ensures
            n == self.spec_to_u8(),
            n <= 7,
    {
        match self {
            AnalogNumber::A0 => 0,
            AnalogNumber::A1 => 1,
            AnalogNumber::A2 => 2,
            AnalogNumber::A3 => 3,
            AnalogNumber::A4 => 4,
            AnalogNumber::A5 => 5,
            AnalogNumber::A6 => 6,
            AnalogNumber::A7 => 7,
        }
    }

    #[verifier::when_used_as_spec(spec_from_u8)]
    pub fn from_u8(n: u8) -> (a: Option<AnalogNumber>)
        ensures
            a == Self::spec_from_u8(n),
            a.is_some() <==> n <= 7,
            a.is_some() ==> a.unwrap().spec_to_u8() == n,
    {
        match n {
            0 => Some(AnalogNumber::A0),
            1 => Some(AnalogNumber::A1),
            2 => Some(AnalogNumber::A2),
            3 => Some(AnalogNumber::A3),
            4 => Some(AnalogNumber::A4),
            5 => Some(AnalogNumber::A5),
            6 => Some(AnalogNumber::A6),
            7 => Some(AnalogNumber::A7),
            _ => None,
        }
    }

    /// Numbering and lookup are inverse to each other.
    pub proof fn lemma_number_round_trip(self)
        ensures
            Self::spec_from_u8(self.spec_to_u8()) == Some(self),
    {
    }
}

} // verus!
