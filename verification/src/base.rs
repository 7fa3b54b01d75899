//! Types shared by every protocol: addresses, drive state, function numbers.

use vstd::prelude::*;

pub mod address;
pub mod analog;
pub mod drive;
pub mod functions;

verus! {

/// A set of flags that can be read as a raw integer.
pub trait Bits<T>: Copy {
    /// The raw value, as specifications see it.
    spec fn spec_bits(&self) -> T;

    /// The raw value.
    fn bits(&self) -> (b: T)
        ensures
            b == self.spec_bits(),
    ;
}

/// The XOR of all bytes of `s`.
pub open spec fn xor_all(s: Seq<u8>) -> u8
    decreases s.len(),
{
    if s.len() == 0 {
        0
    } else {
        xor_all(s.drop_last()) ^ s.last()
    }
}

/// Writes the XOR of `buf[0..len - 1]` into `buf[len - 1]` and returns `len`.
pub fn add_xor(buf: &mut [u8], len: usize) -> (n: usize)
    requires
        1 <= len <= old(buf)@.len(),
    ensures
        n == len,
        final(buf)@ == old(buf)@.update(len - 1, xor_all(old(buf)@.take(len - 1))),
{
    let mut x: u8 = 0;
    let mut i: usize = 0;
    while i < len - 1
        invariant
            i <= len - 1,
            len <= buf@.len(),
            buf@ == old(buf)@,
            x == xor_all(buf@.take(i as int)),
        decreases len - 1 - i,
    {
        proof {
            assert(buf@.take(i + 1).drop_last() == buf@.take(i as int));
        }
        x = x ^ buf[i];
        i += 1;
    }
    buf[len - 1] = x;
    len
}

/// The XOR of the first `n` bytes of `bytes`.
pub fn xor_prefix(bytes: &[u8], n: usize) -> (x: u8)
    requires
        n <= bytes@.len(),
    ensures
        x == xor_all(bytes@.take(n as int)),
{
    let mut x: u8 = 0;
    let mut i: usize = 0;
    while i < n
        invariant
            i <= n <= bytes@.len(),
            x == xor_all(bytes@.take(i as int)),
        decreases n - i,
    {
        proof {
            assert(bytes@.take(i + 1).drop_last() == bytes@.take(i as int));
        }
        x = x ^ bytes[i];
        i += 1;
    }
    x
}

/// `body` followed by the XOR of its bytes.
pub open spec fn with_xor(body: Seq<u8>) -> Seq<u8> {
    body.push(xor_all(body))
}

/// The two bytes of `x`, low byte first.
pub open spec fn le16(x: u16) -> Seq<u8> {
    seq![(x & 0xFF) as u8, (x >> 8) as u8]
}

/// The number whose low byte is `low` and whose high byte is `high`.
pub open spec fn from_le16(low: u8, high: u8) -> u16 {
    (low as u16) | ((high as u16) << 8)
}

/// Copies `bytes` into `buf` from index `at` on.
pub fn put(buf: &mut [u8], at: usize, bytes: &[u8])
    requires
        at + bytes@.len() <= old(buf)@.len(),
    ensures
        final(buf)@ == old(buf)@.take(at as int) + bytes@ + old(buf)@.skip(at + bytes@.len()),
{
    let size: usize = buf.len();
    let mut i: usize = 0;
    while i < bytes.len()
        invariant
            i <= bytes@.len(),
            at + bytes@.len() <= buf@.len(),
            buf@.len() == old(buf)@.len(),
            buf@.len() == size,
            buf@ == old(buf)@.take(at as int) + bytes@.take(i as int) + old(buf)@.skip(at + i),
        decreases bytes@.len() - i,
    {
        buf[at + i] = bytes[i];
        proof {
            assert(buf@ =~= old(buf)@.take(at as int) + bytes@.take(i + 1) + old(buf)@.skip(
                at + i + 1,
            ));
        }
        i += 1;
    }
    proof {
        assert(bytes@.take(bytes@.len() as int) == bytes@);
    }
}

/// Writes `body` and the XOR of its bytes to the start of `buf` and returns
/// the number of bytes written.
pub fn put_with_xor(buf: &mut [u8], body: &[u8]) -> (n: usize)
    requires
        body@.len() < old(buf)@.len(),
    ensures
        n == body@.len() + 1,
        final(buf)@.len() == old(buf)@.len(),
        final(buf)@.take(n as int) == with_xor(body@),
        final(buf)@.skip(n as int) == old(buf)@.skip(n as int),
{
    let size: usize = buf.len();
    put(buf, 0, body);
    let ghost filled = buf@;
    let n = add_xor(buf, body.len() + 1);
    proof {
        assert(filled.take(body@.len() as int) =~= body@);
        assert(buf@.take(n as int) =~= with_xor(body@));
        assert(buf@.skip(n as int) =~= old(buf)@.skip(n as int));
    }
    n
}

} // verus!
