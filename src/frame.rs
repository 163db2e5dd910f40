//! Decoding of raw response frames into integers.
use vstd::prelude::*;

verus! {

/// The big-endian 16-bit value of a high and a low byte.
pub open spec fn be16(hi: u8, lo: u8) -> int {
    hi as int * 256 + lo as int
}

/// The little-endian 16-bit value of a low and a high byte.
pub open spec fn le16(lo: u8, hi: u8) -> int {
    hi as int * 256 + lo as int
}

proof fn lemma_join16(hi: u8, lo: u8)
    ensures
        ((hi as u16) << 8u16) | (lo as u16) == hi as int * 256 + lo as int,
{
    assert(((hi as u16) << 8u16) | (lo as u16) == (hi as u16) * 256 + (lo as u16)) by (bit_vector);
}

/// Joins a high and a low byte into one 16-bit value.
pub fn join_be16(hi: u8, lo: u8) -> (r: u16)
    ensures
        r as int == be16(hi, lo),
{
    proof {
        lemma_join16(hi, lo);
    }
    ((hi as u16) << 8u16) | (lo as u16)
}

/// Reads the big-endian 16-bit value at `offset` of a frame.
pub fn decode_u16(frame: &[u8], offset: usize) -> (r: u16)
    requires
        offset + 2 <= frame@.len(),
    ensures
        r as int == be16(frame@[offset as int], frame@[offset + 1]),
{
    join_be16(frame[offset], frame[offset + 1])
}

/// Reads the little-endian 16-bit value at `offset` of a frame.
pub fn decode_u16_le(frame: &[u8], offset: usize) -> (r: u16)
    requires
        offset + 2 <= frame@.len(),
    ensures
        r as int == le16(frame@[offset as int], frame@[offset + 1]),
{
    let n: usize = frame.len();
    assert(offset + 1 < n);
    join_be16(frame[offset + 1], frame[offset])
}

/// Appends one byte below an accumulated big-endian value.
pub fn push_byte(acc: u64, b: u8) -> (r: u64)
    requires
        acc < 0x100_0000_0000_0000,
    ensures
        r as int == acc as int * 256 + b as int,
{
    assert(((acc << 8u64) | (b as u64)) == acc * 256 + (b as u64)) by (bit_vector)
        requires
            acc < 0x100_0000_0000_0000u64,
    ;
    (acc << 8u64) | (b as u64)
}

/// The big-endian 32-bit value of four bytes.
pub open spec fn be32(b0: u8, b1: u8, b2: u8, b3: u8) -> int {
    ((b0 as int * 256 + b1 as int) * 256 + b2 as int) * 256 + b3 as int
}

/// Reads the big-endian 32-bit value at the start of a frame.
pub fn decode_u32(frame: &[u8]) -> (r: u32)
    requires
        4 <= frame@.len(),
    ensures
        r as int == be32(frame@[0], frame@[1], frame@[2], frame@[3]),
{
    let a: u64 = push_byte(frame[0] as u64, frame[1]);
    let a: u64 = push_byte(a, frame[2]);
    let a: u64 = push_byte(a, frame[3]);
    a as u32
}

/// The data word `i` of a frame made of three-byte words: two data bytes,
/// big-endian, then one checksum byte.
pub open spec fn word_at(frame: Seq<u8>, i: int) -> int {
    be16(frame[3 * i], frame[3 * i + 1])
}

/// Reads data word `i` of a frame of checksummed words, skipping the
/// checksum byte without checking it.
pub fn decode_word(frame: &[u8], i: usize) -> (r: u16)
    requires
        3 * i + 3 <= frame@.len(),
    ensures
        r as int == word_at(frame@, i as int),
{
    let n: usize = frame.len();
    assert(3 * i + 3 <= n);
    decode_u16(frame, 3 * i)
}

} // verus!
