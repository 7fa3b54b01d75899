//! Locomotive addresses.

use vstd::prelude::*;

verus! {

/// The number of a locomotive decoder.
#[derive(Debug, Clone, Copy, PartialEq, Eq, Structural)]
pub struct Address {
    pub num: u16,
}

impl Address {
    pub fn new(num: u16) -> (a: Address)
        ensures
            a.num == num,
    {
        Address { num }
    }
}

impl From<u16> for Address {
    fn from(num: u16) -> (a: Address) {
        Address::new(num)
    }
}

impl vstd::std_specs::convert::FromSpecImpl<u16> for Address {
    open spec fn obeys_from_spec() -> bool {
        true
    }

    open spec fn from_spec(num: u16) -> Address {
        Address { num }
    }
}

} // verus!
