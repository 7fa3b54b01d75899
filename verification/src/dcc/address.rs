//! Addresses on the DCC wire: one byte for 0 to 127, two bytes above.

use vstd::prelude::*;
use crate::base::address::Address;

verus! {

/// Whether a first address byte announces a two-byte address: its two top
/// bits are set and its low six bits are not all ones.
pub open spec fn is_long_form(first: u8) -> bool {
    first & 0xC0 == 0xC0 && first & 0x3F != 0x3F
}

/// The bytes that stand for `addr` on the wire.  A two-byte address carries
/// the high six bits of the number, marked with `0xC0`, then the low eight.
pub open spec fn address_bytes(addr: Address) -> Seq<u8> {
    if addr.num > 127 {
        seq![(((addr.num >> 8) & 0x3F) as u8) | 0xC0u8, (addr.num & 0xFF) as u8]
    } else {
        seq![addr.num as u8]
    }
}

/// How many bytes of `bytes` its leading address takes.
pub open spec fn address_span(bytes: Seq<u8>) -> nat
    recommends
        bytes.len() >= 1,
{
    if is_long_form(bytes[0]) {
        2
    } else {
        1
    }
}

/// The address that `bytes` begins with.  A two-byte address is read with
/// the first byte's low six bits as the low byte of the number.
pub open spec fn address_parsed(bytes: Seq<u8>) -> Address
    recommends
        bytes.len() >= address_span(bytes),
{
    if is_long_form(bytes[0]) {
        Address { num: ((bytes[0] & 0x3F) as u16) | ((bytes[1] as u16) << 8) }
    } else {
        Address { num: bytes[0] as u16 }
    }
}

/// The DCC wire form of an address.
pub trait DccAddress: Sized {
    /// The address that this value stands for.
    spec fn address(&self) -> Address;

    /// Reads the address at the start of `bytes`.
    fn from_bytes(bytes: &[u8]) -> (addr: Address)
        requires
            bytes@.len() >= 1,
            bytes@.len() >= address_span(bytes@),
        ensures
            addr == address_parsed(bytes@),
    ;

    /// Writes the address to the start of `buf` and returns its length.
    fn to_buf(&self, buf: &mut [u8]) -> (n: usize)
        requires
            old(buf)@.len() >= address_bytes(self.address()).len(),
        ensures
            n == address_bytes(self.address()).len(),
            final(buf)@.len() == old(buf)@.len(),
            final(buf)@.take(n as int) == address_bytes(self.address()),
            final(buf)@.skip(n as int) == old(buf)@.skip(n as int),
    ;

    /// The number of bytes of the wire form: 2 above 127, else 1.
    fn len(&self) -> (n: usize)
        ensures
            n == address_bytes(self.address()).len(),
            n == if self.address().num > 127 { 2usize } else { 1usize },
    ;
}

impl DccAddress for Address {
    open spec fn address(&self) -> Address {
        *self
    }

    fn from_bytes(bytes: &[u8]) -> (addr: Address) {
        let first: u8 = bytes[0];
        let num: u16 = if first & 0xC0 == 0xC0 && first & 0x3F != 0x3F {
            ((first & 0x3F) as u16) | ((bytes[1] as u16) << 8)
        } else {
            first as u16
        };
        Address { num }
    }

    fn to_buf(&self, buf: &mut [u8]) -> (n: usize) {
        if self.num > 127 {
            buf[0] = (((self.num >> 8) & 0x3F) as u8) | 0xC0u8;
            buf[1] = (self.num & 0xFF) as u8;
            proof {
                assert(buf@.take(2) =~= address_bytes(*self));
                assert(buf@.skip(2) =~= old(buf)@.skip(2));
            }
            2
        } else {
            buf[0] = self.num as u8;
            proof {
                assert(buf@.take(1) =~= address_bytes(*self));
                assert(buf@.skip(1) =~= old(buf)@.skip(1));
            }
            1
        }
    }

    fn len(&self) -> (n: usize) {
        if self.num > 127 {
            2
        } else {
            1
        }
    }
}

/// The bit facts behind the address laws.
proof fn lemma_address_bits(num: u16)
    by (bit_vector)
    ensures
        num <= 127 ==> (num as u8) & 0xC0 != 0xC0,
        num <= 127 ==> (num as u8) as u16 == num,
        ((((num >> 8) & 0x3F) as u8) | 0xC0u8) & 0xC0 == 0xC0,
        ((((num >> 8) & 0x3F) as u8) | 0xC0u8) & 0x3F == ((num >> 8) & 0x3F) as u8,
        num < 0x3F00 ==> ((num >> 8) & 0x3F) as u8 != 0x3F,
        num >= 0x3F00 && num < 0x4000 ==> ((num >> 8) & 0x3F) as u8 == 0x3F,
        num < 0x4000 ==> ((((num >> 8) & 0x3F) as u8) as u16) | ((((num & 0xFF) as u8) as u16) << 8)
            == ((num >> 8) | ((num & 0xFF) << 8)),
        ((num >> 8) | ((num & 0xFF) << 8)) == num <==> (num >> 8) == (num & 0xFF),
        ((num >> 8) | ((num & 0xFF) << 8)) <= 127 ==> (num & 0xFF) as u8 == 0,
{
}

/// An address from 1 to 127 travels as the single byte equal to its number;
/// an address from 128 to 10239 travels as two bytes, the first of which has
/// its two top bits set.
pub proof fn lemma_address_encoding(addr: Address)
    ensures
        1 <= addr.num <= 127 ==> address_bytes(addr) == seq![addr.num as u8] && address_bytes(
            addr,
        )[0] as int == addr.num,
        128 <= addr.num <= 10239 ==> address_bytes(addr).len() == 2 && address_bytes(addr)[0]
            & 0xC0 == 0xC0,
{
    lemma_address_bits(addr.num);
}

/// Whether reading back the wire form of `addr` gives `addr` again: every
/// one-byte address does, and a two-byte address does exactly when its high
/// and low byte are equal, since it is written high byte first and read low
/// byte first.
pub open spec fn address_survives(addr: Address) -> bool {
    addr.num <= 127 || (addr.num < 0x3F00 && (addr.num >> 8) == (addr.num & 0xFF))
}

/// Reading back the wire form of an address below `0x4000`, followed by
/// anything, gives the address again exactly when `address_survives` says so;
/// below `0x3F00` the span read is the span written, and a two-byte address
/// that reads back as a one-byte address has a second byte of zero.
pub proof fn lemma_address_round_trip(addr: Address, rest: Seq<u8>)
    requires
        addr.num < 0x4000,
    ensures
        address_parsed(address_bytes(addr) + rest) == addr <==> address_survives(addr),
        addr.num < 0x3F00 ==> address_span(address_bytes(addr) + rest) == address_bytes(
            addr,
        ).len(),
        127 < addr.num < 0x3F00 && address_parsed(address_bytes(addr) + rest).num <= 127 ==> (
        address_bytes(addr) + rest)[1] == 0,
{
    lemma_address_bits(addr.num);
    let bytes = address_bytes(addr) + rest;
    if addr.num > 127 {
        assert(bytes[0] == address_bytes(addr)[0]);
        assert(bytes[1] == address_bytes(addr)[1]);
        if addr.num >= 0x3F00 {
            assert(!is_long_form(bytes[0]));
            assert(address_parsed(bytes).num == bytes[0] as u16);
            assert(address_parsed(bytes).num <= 255);
        }
    } else {
        assert(bytes[0] == address_bytes(addr)[0]);
    }
}

} // verus!
