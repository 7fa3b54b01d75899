//! The byte that carries the states of one group of functions.

use vstd::prelude::*;
use crate::base::functions::Function;

verus! {

/// The bit of a function-group byte that holds function number `n`: bit 4
/// for function 0, bits 0 to 3 for functions 1 to 4, and from function 5 on
/// eight functions to a byte, in order.
pub open spec fn function_bit(n: u8) -> u8 {
    if n == 0 {
        4
    } else if n <= 4 {
        (n - 1) as u8
    } else {
        ((n - 5) % 8) as u8
    }
}

/// Whether bit `p` of `data` is set.
pub open spec fn bit_is_set(data: u8, p: u8) -> bool {
    (data >> p) & 0x01 == 0x01
}

/// The states of the functions of one group, packed into a byte.
#[derive(Clone, Copy, Debug, PartialEq, Eq)]
pub struct FunctionGroupByte {
    data: u8,
}

impl View for FunctionGroupByte {
    type V = u8;

    closed spec fn view(&self) -> u8 {
        self.data
    }
}

proof fn lemma_bit_update(d: u8, p: u8, q: u8)
    by (bit_vector)
    requires
        p < 8,
        q < 8,
    ensures
        ((d | (1u8 << p)) >> p) & 0x01 == 0x01,
        ((d & !(1u8 << p)) >> p) & 0x01 != 0x01,
        q != p ==> ((d | (1u8 << p)) >> q) & 0x01 == (d >> q) & 0x01,
        q != p ==> ((d & !(1u8 << p)) >> q) & 0x01 == (d >> q) & 0x01,
        (0u8 >> q) & 0x01 != 0x01,
{
}

impl FunctionGroupByte {
    fn function_position(f: Function) -> (p: u8)
        ensures
            p == function_bit(f.spec_to_u8()),
            p < 8,
    {
        let n: u8 = f.to_u8();
        if n == 0 {
            4
        } else if n <= 4 {
            n - 1
        } else {
            (n - 5) % 8
        }
    }

    /// Whether the byte has the bit of function `f` set.
    pub open spec fn spec_get(&self, f: Function) -> bool {
        bit_is_set(self@, function_bit(f.spec_to_u8()))
    }

    #[verifier::when_used_as_spec(spec_get)]
    pub fn get(&self, f: Function) -> (on: bool)
        ensures
            on == self.spec_get(f),
    {
        let p: u8 = Self::function_position(f);
        (self.data >> p) & 0x01 == 0x01
    }

    /// Sets or clears the bit of function `f` and leaves the others alone.
    pub fn set(&mut self, f: Function, value: bool)
        ensures
            final(self)@ == if value {
                old(self)@ | (1u8 << function_bit(f.spec_to_u8()))
            } else {
                old(self)@ & !(1u8 << function_bit(f.spec_to_u8()))
            },
            final(self).spec_get(f) == value,
            forall|g: Function|
                function_bit(g.spec_to_u8()) != function_bit(f.spec_to_u8())
                    ==> final(self).spec_get(g) == old(self).spec_get(g),
    {
        let p: u8 = Self::function_position(f);
        if value {
            self.data |= 1u8 << p;
        } else {
            self.data &= !(1u8 << p);
        }
        proof {
            lemma_bit_update(old(self).data, p, p);
            assert forall|g: Function|
                function_bit(g.spec_to_u8()) != function_bit(f.spec_to_u8())
                    implies self.spec_get(g) == old(self).spec_get(g) by {
                lemma_bit_update(old(self).data, p, function_bit(g.spec_to_u8()));
            }
        }
    }

    /// Clears every bit.
    pub fn clear(&mut self)
        ensures
            final(self)@ == 0,
            forall|g: Function| !final(self).spec_get(g),
    {
        self.data = 0x00;
        proof {
            assert forall|g: Function| !self.spec_get(g) by {
                lemma_bit_update(0, 0, function_bit(g.spec_to_u8()));
            }
        }
    }
}

impl From<u8> for FunctionGroupByte {
    fn from(data: u8) -> (group: FunctionGroupByte) {
        FunctionGroupByte { data }
    }
}

impl vstd::std_specs::convert::FromSpecImpl<u8> for FunctionGroupByte {
    open spec fn obeys_from_spec() -> bool {
        true
    }

    closed spec fn from_spec(data: u8) -> FunctionGroupByte {
        FunctionGroupByte { data }
    }
}

impl From<FunctionGroupByte> for u8 {
    fn from(group: FunctionGroupByte) -> (data: u8) {
        group.data
    }
}

impl vstd::std_specs::convert::FromSpecImpl<FunctionGroupByte> for u8 {
    open spec fn obeys_from_spec() -> bool {
        true
    }

    closed spec fn from_spec(group: FunctionGroupByte) -> u8 {
        group.data
    }
}

/// Converting a byte into a group byte and back keeps its bits.
pub proof fn lemma_group_byte_conversions(data: u8, group: FunctionGroupByte)
    ensures
        <FunctionGroupByte as vstd::std_specs::convert::FromSpec<u8>>::from_spec(data)@ == data,
        <u8 as vstd::std_specs::convert::FromSpec<FunctionGroupByte>>::from_spec(group) == group@,
        <FunctionGroupByte as vstd::std_specs::convert::FromSpec<u8>>::from_spec(group@) == group,
{
}

impl FunctionGroupByte {
    /// The group byte with the bits of `data`.
    pub fn new(data: u8) -> (group: FunctionGroupByte)
        ensures
            group@ == data,
    {
        FunctionGroupByte { data }
    }

    /// The bits of the group byte.
    pub fn data(&self) -> (data: u8)
        ensures
            data == self@,
    {
        self.data
    }
}

} // verus!
