//! Little-endian integers on the wire.

use byteorder::ByteOrder;
use vstd::prelude::*;
use vstd::slice::slice_subrange;

verus! {

/// The number that four bytes spell, least significant byte first.
#[verifier::opaque]
pub open spec fn le_u32(s: Seq<u8>) -> int
    recommends
        s.len() >= 4,
{
    s[0] as int + 256 * (s[1] as int) + 65536 * (s[2] as int) + 16777216 * (s[3] as int)
}

/// The four bytes that spell `v`, least significant byte first.
#[verifier::opaque]
pub open spec fn le_bytes(v: int) -> Seq<u8>
    recommends
        0 <= v < 0x1_0000_0000,
{
    seq![
        (v % 256) as u8,
        ((v / 256) % 256) as u8,
        ((v / 65536) % 256) as u8,
        ((v / 16777216) % 256) as u8,
    ]
}

/// The signed reading of an unsigned 32-bit pattern (two's complement).
pub open spec fn as_signed(u: int) -> int {
    if u < 0x8000_0000 {
        u
    } else {
        u - 0x1_0000_0000
    }
}

/// The unsigned pattern of a signed 32-bit number (two's complement).
pub open spec fn as_unsigned(i: int) -> int {
    if i >= 0 {
        i
    } else {
        i + 0x1_0000_0000
    }
}

/// Spelling a number and reading the bytes back gives the number.
pub proof fn lemma_le_bytes_then_read(v: int)
    requires
        0 <= v < 0x1_0000_0000,
    ensures
        le_bytes(v).len() == 4,
        le_u32(le_bytes(v)) == v,
{
    reveal(le_bytes);
    reveal(le_u32);
}

/// Reading four bytes and spelling the number gives the bytes back.
pub proof fn lemma_read_then_le_bytes(s: Seq<u8>)
    requires
        s.len() == 4,
    ensures
        0 <= le_u32(s) < 0x1_0000_0000,
        le_bytes(le_u32(s)) == s,
{
    reveal(le_bytes);
    reveal(le_u32);
    assert(le_bytes(le_u32(s)) =~= s);
}

/// The signed and the unsigned reading undo each other.
pub proof fn lemma_signed_unsigned(u: int, i: int)
    requires
        0 <= u < 0x1_0000_0000,
        -0x8000_0000 <= i < 0x8000_0000,
    ensures
        as_unsigned(as_signed(u)) == u,
        as_signed(as_unsigned(i)) == i,
        0 <= as_unsigned(i) < 0x1_0000_0000,
        -0x8000_0000 <= as_signed(u) < 0x8000_0000,
{
}

/// Calls `byteorder::LittleEndian::read_u32`, which reads the first four
/// bytes of `buf` as a little-endian number and panics on a shorter slice.
#[verifier::external_body]
pub(crate) fn read_u32_le(buf: &[u8]) -> (r: u32)
    requires
        buf@.len() >= 4,
    ensures
        r as int == le_u32(buf@),
{
    byteorder::LittleEndian::read_u32(buf)
}

/// Calls `byteorder::LittleEndian::read_i32`, which reads the first four
/// bytes of `buf` as a little-endian two's complement number and panics on a
/// shorter slice.
#[verifier::external_body]
pub(crate) fn read_i32_le(buf: &[u8]) -> (r: i32)
    requires
        buf@.len() >= 4,
    ensures
        r as int == as_signed(le_u32(buf@)),
{
    byteorder::LittleEndian::read_i32(buf)
}

/// The unsigned number at `offset` in `data`.
pub fn u32_at(data: &[u8], offset: usize) -> (r: u32)
    requires
        offset + 4 <= data@.len(),
    ensures
        r as int == le_u32(data@.subrange(offset as int, offset + 4)),
{
    let len: usize = data.len();
    read_u32_le(slice_subrange(data, offset, offset + 4))
}

/// The signed number at `offset` in `data`.
pub fn i32_at(data: &[u8], offset: usize) -> (r: i32)
    requires
        offset + 4 <= data@.len(),
    ensures
        r as int == as_signed(le_u32(data@.subrange(offset as int, offset + 4))),
{
    let len: usize = data.len();
    read_i32_le(slice_subrange(data, offset, offset + 4))
}

/// Appends the four bytes of `v`, least significant first.
pub fn push_u32_le(out: &mut Vec<u8>, v: u32)
    ensures
        final(out)@ == old(out)@ + le_bytes(v as int),
{
    let b0: u8 = (v % 256) as u8;
    let b1: u8 = ((v / 256) % 256) as u8;
    let b2: u8 = ((v / 65536) % 256) as u8;
    let b3: u8 = ((v / 16777216) % 256) as u8;
    out.push(b0);
    out.push(b1);
    out.push(b2);
    out.push(b3);
    reveal(le_bytes);
    assert(out@ =~= old(out)@ + le_bytes(v as int));
}

/// Appends the four bytes of the two's complement pattern of `v`.
pub fn push_i32_le(out: &mut Vec<u8>, v: i32)
    ensures
        final(out)@ == old(out)@ + le_bytes(as_unsigned(v as int)),
{
    let wide: i64 = v as i64;
    let pattern: i64 = if wide >= 0 {
        wide
    } else {
        wide + 0x1_0000_0000
    };
    push_u32_le(out, pattern as u32);
}

} // verus!
