//! Big-endian byte encoding of the integer fields of the STUN wire format,
//! and the zero-padding that aligns attribute values to 4-byte boundaries.

use vstd::prelude::*;

verus! {

/// The two big-endian bytes of a 16-bit value: most-significant byte first.
pub open spec fn spec_u16_bytes(x: u16) -> Seq<u8> {
    seq![(x >> 8) as u8, (x & 0xff) as u8]
}

/// The four big-endian bytes of a 32-bit value: most-significant byte first.
pub open spec fn spec_u32_bytes(x: u32) -> Seq<u8> {
    seq![
        ((x >> 24) & 0xff) as u8,
        ((x >> 16) & 0xff) as u8,
        ((x >> 8) & 0xff) as u8,
        (x & 0xff) as u8,
    ]
}

/// The 16-bit value encoded big-endian by two bytes.
pub open spec fn spec_u16_of(b0: u8, b1: u8) -> u16 {
    ((b0 as u16) << 8) | (b1 as u16)
}

/// The 32-bit value encoded big-endian by four bytes.
pub open spec fn spec_u32_of(b0: u8, b1: u8, b2: u8, b3: u8) -> u32 {
    ((b0 as u32) << 24) | ((b1 as u32) << 16) | ((b2 as u32) << 8) | (b3 as u32)
}

/// How many zero bytes carry a value of `length` bytes to the next multiple
/// of four: a length already a multiple of four gets none.
pub open spec fn spec_pad_len(length: int) -> int {
    if length % 4 == 0 {
        0
    } else {
        4 - length % 4
    }
}

/// The zero bytes that pad a value of `length` bytes to a 4-byte boundary.
pub open spec fn spec_padding(length: int) -> Seq<u8> {
    Seq::new(spec_pad_len(length) as nat, |i: int| 0u8)
}

/// Appends the two big-endian bytes of `x`.
pub fn push_u16_be(out: &mut Vec<u8>, x: u16)
    ensures
        final(out)@ == old(out)@ + spec_u16_bytes(x),
{
    out.push((x >> 8) as u8);
    out.push((x & 0xff) as u8);
    proof {
        assert(out@ =~= old(out)@ + spec_u16_bytes(x));
    }
}

/// Appends the four big-endian bytes of `x`.
pub fn push_u32_be(out: &mut Vec<u8>, x: u32)
    ensures
        final(out)@ == old(out)@ + spec_u32_bytes(x),
{
    out.push(((x >> 24) & 0xff) as u8);
    out.push(((x >> 16) & 0xff) as u8);
    out.push(((x >> 8) & 0xff) as u8);
    out.push((x & 0xff) as u8);
    proof {
        assert(out@ =~= old(out)@ + spec_u32_bytes(x));
    }
}

/// Reads the 16-bit big-endian value at offset `i`.
pub fn read_u16_be(buf: &[u8], i: usize) -> (r: u16)
    requires
        i + 2 <= buf@.len(),
    ensures
        r == spec_u16_of(buf@[i as int], buf@[i + 1]),
{
    ((buf[i] as u16) << 8) | (buf[i + 1] as u16)
}

/// Reads the 32-bit big-endian value at offset `i`.
pub fn read_u32_be(buf: &[u8], i: usize) -> (r: u32)
    requires
        i + 4 <= buf@.len(),
    ensures
        r == spec_u32_of(buf@[i as int], buf@[i + 1], buf@[i + 2], buf@[i + 3]),
{
    ((buf[i] as u32) << 24) | ((buf[i + 1] as u32) << 16) | ((buf[i + 2] as u32) << 8) | (
    buf[i + 3] as u32)
}

} // verus!
