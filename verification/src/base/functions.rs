//! Locomotive functions and the groups they are transmitted in.

use vstd::prelude::*;

verus! {

/// A switchable function of a locomotive, `F0` to `F68`.
#[derive(Clone, Copy, Debug, PartialEq, Eq, Structural)]
pub enum Function {
    F0,
    F1,
    F2,
    F3,
    F4,
    F5,
    F6,
    F7,
    F8,
    F9,
    F10,
    F11,
    F12,
    F13,
    F14,
    F15,
    F16,
    F17,
    F18,
    F19,
    F20,
    F21,
    F22,
    F23,
    F24,
    F25,
    F26,
    F27,
    F28,
    F29,
    F30,
    F31,
    F32,
    F33,
    F34,
    F35,
    F36,
    F37,
    F38,
    F39,
    F40,
    F41,
    F42,
    F43,
    F44,
    F45,
    F46,
    F47,
    F48,
    F49,
    F50,
    F51,
    F52,
    F53,
    F54,
    F55,
    F56,
    F57,
    F58,
    F59,
    F60,
    F61,
    F62,
    F63,
    F64,
    F65,
    F66,
    F67,
    F68,
}

impl Function {
    /// The function's number, 0 to 68.
    pub open spec fn spec_to_u8(&self) -> u8 {
        match self {
            Function::F0 => 0,
            Function::F1 => 1,
            Function::F2 => 2,
            Function::F3 => 3,
            Function::F4 => 4,
            Function::F5 => 5,
            Function::F6 => 6,
            Function::F7 => 7,
            Function::F8 => 8,
            Function::F9 => 9,
            Function::F10 => 10,
            Function::F11 => 11,
            Function::F12 => 12,
            Function::F13 => 13,
            Function::F14 => 14,
            Function::F15 => 15,
            Function::F16 => 16,
            Function::F17 => 17,
            Function::F18 => 18,
            Function::F19 => 19,
            Function::F20 => 20,
            Function::F21 => 21,
            Function::F22 => 22,
            Function::F23 => 23,
            Function::F24 => 24,
            Function::F25 => 25,
            Function::F26 => 26,
            Function::F27 => 27,
            Function::F28 => 28,
            Function::F29 => 29,
            Function::F30 => 30,
            Function::F31 => 31,
            Function::F32 => 32,
            Function::F33 => 33,
            Function::F34 => 34,
            Function::F35 => 35,
            Function::F36 => 36,
            Function::F37 => 37,
            Function::F38 => 38,
            Function::F39 => 39,
            Function::F40 => 40,
            Function::F41 => 41,
            Function::F42 => 42,
            Function::F43 => 43,
            Function::F44 => 44,
            Function::F45 => 45,
            Function::F46 => 46,
            Function::F47 => 47,
            Function::F48 => 48,
            Function::F49 => 49,
            Function::F50 => 50,
            Function::F51 => 51,
            Function::F52 => 52,
            Function::F53 => 53,
            Function::F54 => 54,
            Function::F55 => 55,
            Function::F56 => 56,
            Function::F57 => 57,
            Function::F58 => 58,
            Function::F59 => 59,
            Function::F60 => 60,
            Function::F61 => 61,
            Function::F62 => 62,
            Function::F63 => 63,
            Function::F64 => 64,
            Function::F65 => 65,
            Function::F66 => 66,
            Function::F67 => 67,
            Function::F68 => 68,
        }
    }

    /// The function with number `n`, if there is one.
    pub open spec fn spec_from_u8(n: u8) -> Option<Function> {
        match n {
            0 => Some(Function::F0),
            1 => Some(Function::F1),
            2 => Some(Function::F2),
            3 => Some(Function::F3),
            4 => Some(Function::F4),
            5 => Some(Function::F5),
            6 => Some(Function::F6),
            7 => Some(Function::F7),
            8 => Some(Function::F8),
            9 => Some(Function::F9),
            10 => Some(Function::F10),
            11 => Some(Function::F11),
            12 => Some(Function::F12),
            13 => Some(Function::F13),
            14 => Some(Function::F14),
            15 => Some(Function::F15),
            16 => Some(Function::F16),
            17 => Some(Function::F17),
            18 => Some(Function::F18),
            19 => Some(Function::F19),
            20 => Some(Function::F20),
            21 => Some(Function::F21),
            22 => Some(Function::F22),
            23 => Some(Function::F23),
            24 => Some(Function::F24),
            25 => Some(Function::F25),
            26 => Some(Function::F26),
            27 => Some(Function::F27),
            28 => Some(Function::F28),
            29 => Some(Function::F29),
            30 => Some(Function::F30),
            31 => Some(Function::F31),
            32 => Some(Function::F32),
            33 => Some(Function::F33),
            34 => Some(Function::F34),
            35 => Some(Function::F35),
            36 => Some(Function::F36),
            37 => Some(Function::F37),
            38 => Some(Function::F38),
            39 => Some(Function::F39),
            40 => Some(Function::F40),
            41 => Some(Function::F41),
            42 => Some(Function::F42),
            43 => Some(Function::F43),
            44 => Some(Function::F44),
            45 => Some(Function::F45),
            46 => Some(Function::F46),
            47 => Some(Function::F47),
            48 => Some(Function::F48),
            49 => Some(Function::F49),
            50 => Some(Function::F50),
            51 => Some(Function::F51),
            52 => Some(Function::F52),
            53 => Some(Function::F53),
            54 => Some(Function::F54),
            55 => Some(Function::F55),
            56 => Some(Function::F56),
            57 => Some(Function::F57),
            58 => Some(Function::F58),
            59 => Some(Function::F59),
            60 => Some(Function::F60),
            61 => Some(Function::F61),
            62 => Some(Function::F62),
            63 => Some(Function::F63),
            64 => Some(Function::F64),
            65 => Some(Function::F65),
            66 => Some(Function::F66),
            67 => Some(Function::F67),
            68 => Some(Function::F68),
            _ => None,
        }
    }

    #[verifier::when_used_as_spec(spec_to_u8)]
    pub fn to_u8(&self) -> (n: u8)
        ensures
            n == self.spec_to_u8(),
            n <= 68,
        no_unwind
    {
        match self {
            Function::F0 => 0,
            Function::F1 => 1,
            Function::F2 => 2,
            Function::F3 => 3,
            Function::F4 => 4,
            Function::F5 => 5,
            Function::F6 => 6,
            Function::F7 => 7,
            Function::F8 => 8,
            Function::F9 => 9,
            Function::F10 => 10,
            Function::F11 => 11,
            Function::F12 => 12,
            Function::F13 => 13,
            Function::F14 => 14,
            Function::F15 => 15,
            Function::F16 => 16,
            Function::F17 => 17,
            Function::F18 => 18,
            Function::F19 => 19,
            Function::F20 => 20,
            Function::F21 => 21,
            Function::F22 => 22,
            Function::F23 => 23,
            Function::F24 => 24,
            Function::F25 => 25,
            Function::F26 => 26,
            Function::F27 => 27,
            Function::F28 => 28,
            Function::F29 => 29,
            Function::F30 => 30,
            Function::F31 => 31,
            Function::F32 => 32,
            Function::F33 => 33,
            Function::F34 => 34,
            Function::F35 => 35,
            Function::F36 => 36,
            Function::F37 => 37,
            Function::F38 => 38,
            Function::F39 => 39,
            Function::F40 => 40,
            Function::F41 => 41,
            Function::F42 => 42,
            Function::F43 => 43,
            Function::F44 => 44,
            Function::F45 => 45,
            Function::F46 => 46,
            Function::F47 => 47,
            Function::F48 => 48,
            Function::F49 => 49,
            Function::F50 => 50,
            Function::F51 => 51,
            Function::F52 => 52,
            Function::F53 => 53,
            Function::F54 => 54,
            Function::F55 => 55,
            Function::F56 => 56,
            Function::F57 => 57,
            Function::F58 => 58,
            Function::F59 => 59,
            Function::F60 => 60,
            Function::F61 => 61,
            Function::F62 => 62,
            Function::F63 => 63,
            Function::F64 => 64,
            Function::F65 => 65,
            Function::F66 => 66,
            Function::F67 => 67,
            Function::F68 => 68,
        }
    }

    pub fn to_usize(&self) -> (n: usize)
        ensures
            n == self.spec_to_u8(),
            n <= 68,
        no_unwind
    {
        let n: u8 = self.to_u8();
        n as usize
    }

    #[verifier::when_used_as_spec(spec_from_u8)]
    pub fn from_u8(n: u8) -> (f: Option<Function>)
        ensures
            f == Self::spec_from_u8(n),
            f.is_some() <==> n <= 68,
            f.is_some() ==> f.unwrap().spec_to_u8() == n,
    {
        match n {
            0 => Some(Function::F0),
            1 => Some(Function::F1),
            2 => Some(Function::F2),
            3 => Some(Function::F3),
            4 => Some(Function::F4),
            5 => Some(Function::F5),
            6 => Some(Function::F6),
            7 => Some(Function::F7),
            8 => Some(Function::F8),
            9 => Some(Function::F9),
            10 => Some(Function::F10),
            11 => Some(Function::F11),
            12 => Some(Function::F12),
            13 => Some(Function::F13),
            14 => Some(Function::F14),
            15 => Some(Function::F15),
            16 => Some(Function::F16),
            17 => Some(Function::F17),
            18 => Some(Function::F18),
            19 => Some(Function::F19),
            20 => Some(Function::F20),
            21 => Some(Function::F21),
            22 => Some(Function::F22),
            23 => Some(Function::F23),
            24 => Some(Function::F24),
            25 => Some(Function::F25),
            26 => Some(Function::F26),
            27 => Some(Function::F27),
            28 => Some(Function::F28),
            29 => Some(Function::F29),
            30 => Some(Function::F30),
            31 => Some(Function::F31),
            32 => Some(Function::F32),
            33 => Some(Function::F33),
            34 => Some(Function::F34),
            35 => Some(Function::F35),
            36 => Some(Function::F36),
            37 => Some(Function::F37),
            38 => Some(Function::F38),
            39 => Some(Function::F39),
            40 => Some(Function::F40),
            41 => Some(Function::F41),
            42 => Some(Function::F42),
            43 => Some(Function::F43),
            44 => Some(Function::F44),
            45 => Some(Function::F45),
            46 => Some(Function::F46),
            47 => Some(Function::F47),
            48 => Some(Function::F48),
            49 => Some(Function::F49),
            50 => Some(Function::F50),
            51 => Some(Function::F51),
            52 => Some(Function::F52),
            53 => Some(Function::F53),
            54 => Some(Function::F54),
            55 => Some(Function::F55),
            56 => Some(Function::F56),
            57 => Some(Function::F57),
            58 => Some(Function::F58),
            59 => Some(Function::F59),
            60 => Some(Function::F60),
            61 => Some(Function::F61),
            62 => Some(Function::F62),
            63 => Some(Function::F63),
            64 => Some(Function::F64),
            65 => Some(Function::F65),
            66 => Some(Function::F66),
            67 => Some(Function::F67),
            68 => Some(Function::F68),
            _ => None,
        }
    }

    /// Numbering and lookup are inverse to each other.
    pub proof fn lemma_number_round_trip(self)
        ensures
            Self::spec_from_u8(self.spec_to_u8()) == Some(self),
    {
    }
}

/// One of the nine groups in which function states travel over SUSI.
#[derive(Clone, Copy, Debug, PartialEq, Eq, Structural)]
pub enum FunctionGroupNumber {
    Group1,
    Group2,
    Group3,
    Group4,
    Group5,
    Group6,
    Group7,
    Group8,
    Group9,
}

impl FunctionGroupNumber {
    /// The group's number, 1 to 9.
    pub open spec fn spec_to_u8(&self) -> u8 {
        match self {
            FunctionGroupNumber::Group1 => 1,
            FunctionGroupNumber::Group2 => 2,
            FunctionGroupNumber::Group3 => 3,
            FunctionGroupNumber::Group4 => 4,
            FunctionGroupNumber::Group5 => 5,
            FunctionGroupNumber::Group6 => 6,
            FunctionGroupNumber::Group7 => 7,
            FunctionGroupNumber::Group8 => 8,
            FunctionGroupNumber::Group9 => 9,
        }
    }

    /// The group with number `n`, if there is one.
    pub open spec fn spec_from_u8(n: u8) -> Option<FunctionGroupNumber> {
        match n {
            1 => Some(FunctionGroupNumber::Group1),
            2 => Some(FunctionGroupNumber::Group2),
            3 => Some(FunctionGroupNumber::Group3),
            4 => Some(FunctionGroupNumber::Group4),
            5 => Some(FunctionGroupNumber::Group5),
            6 => Some(FunctionGroupNumber::Group6),
            7 => Some(FunctionGroupNumber::Group7),
            8 => Some(FunctionGroupNumber::Group8),
            9 => Some(FunctionGroupNumber::Group9),
            _ => None,
        }
    }

    #[verifier::when_used_as_spec(spec_to_u8)]
    pub fn to_u8(&self) -> (n: u8)
        ensures
            n == self.spec_to_u8(),
            1 <= n <= 9,
    {
        match self {
            FunctionGroupNumber::Group1 => 1,
            FunctionGroupNumber::Group2 => 2,
            FunctionGroupNumber::Group3 => 3,
            FunctionGroupNumber::Group4 => 4,
            FunctionGroupNumber::Group5 => 5,
            FunctionGroupNumber::Group6 => 6,
            FunctionGroupNumber::Group7 => 7,
            FunctionGroupNumber::Group8 => 8,
            FunctionGroupNumber::Group9 => 9,
        }
    }

    #[verifier::when_used_as_spec(spec_from_u8)]
    pub fn from_u8(n: u8) -> (g: Option<FunctionGroupNumber>)
        ensures
            g == Self::spec_from_u8(n),
            g.is_some() <==> 1 <= n <= 9,
            g.is_some() ==> g.unwrap().spec_to_u8() == n,
    {
        match n {
            1 => Some(FunctionGroupNumber::Group1),
            2 => Some(FunctionGroupNumber::Group2),
            3 => Some(FunctionGroupNumber::Group3),
            4 => Some(FunctionGroupNumber::Group4),
            5 => Some(FunctionGroupNumber::Group5),
            6 => Some(FunctionGroupNumber::Group6),
            7 => Some(FunctionGroupNumber::Group7),
            8 => Some(FunctionGroupNumber::Group8),
            9 => Some(FunctionGroupNumber::Group9),
            _ => None,
        }
    }

    /// Numbering and lookup are inverse to each other.
    pub proof fn lemma_number_round_trip(self)
        ensures
            Self::spec_from_u8(self.spec_to_u8()) == Some(self),
    {
    }
}

} // verus!
