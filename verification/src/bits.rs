//! Bit tests, bit ranges, alignment and little-endian reads.
//!
//! The bit tests come from the `bitops` crate and the multi-byte reads from `byteorder`; the
//! functions that call them are the only ones in this crate whose contracts are taken on trust.
//! The narrower integers of the wire format are widened to `u32` before their bits are tested.

use bitops::BitOps;
use byteorder::{ByteOrder, LittleEndian};
use vstd::prelude::*;
use vstd::slice::*;

verus! {

broadcast use group_slice_axioms;

/// Whether `word` has at least one of the bits of `flag` set.
pub open spec fn flag_is_set(word: u32, flag: u32) -> bool {
    word & flag != 0
}

/// Whether bit `n` of `word` is set, counting from the least significant bit. No bit beyond the
/// thirty-second is ever set.
pub open spec fn bit_is_set(word: u32, n: u8) -> bool {
    n < 32 && word & (1u32 << (n as u32)) != 0
}

/// The `count` bits of `word` that start at bit `start`, moved down to bit zero.
pub open spec fn bit_range(word: u32, start: u8, count: u8) -> u32 {
    (word >> (start as u32)) & (((1u32 << (count as u32)) - 1) as u32)
}

/// The unsigned 16-bit number that the two bytes of `bytes` at `at` hold, least significant
/// byte first.
pub open spec fn le_u16(bytes: Seq<u8>, at: int) -> u16 {
    (bytes[at] + 0x100 * bytes[at + 1]) as u16
}

/// The unsigned 32-bit number that the four bytes of `bytes` at `at` hold, least significant
/// byte first.
pub open spec fn le_u32(bytes: Seq<u8>, at: int) -> u32 {
    (le_u16(bytes, at) + 0x1_0000 * le_u16(bytes, at + 2)) as u32
}

/// The unsigned 64-bit number that the eight bytes of `bytes` at `at` hold, least significant
/// byte first.
pub open spec fn le_u64(bytes: Seq<u8>, at: int) -> u64 {
    (le_u32(bytes, at) + 0x1_0000_0000 * le_u32(bytes, at + 4)) as u64
}

/// The number that a byte stands for when it is read as two's complement.
pub open spec fn twos_complement(byte: u8) -> i8 {
    if byte < 0x80 {
        byte as i8
    } else {
        (byte - 0x100) as i8
    }
}

/// The least multiple of `n` that is not below `pos`.
pub open spec fn aligned(pos: int, n: int) -> int {
    if pos % n == 0 {
        pos
    } else {
        pos + n - pos % n
    }
}

/// Aligning moves a position up by less than the boundary, onto the boundary.
pub proof fn lemma_aligned(pos: int, n: int)
    requires
        pos >= 0,
        n == 1 || n == 2 || n == 4 || n == 8,
    ensures
        pos <= aligned(pos, n) < pos + n,
        aligned(pos, n) % n == 0,
{
}

/// Trusted: `bitops::BitOps::is_flag_set` on `u32`. The crate computes `word & flag > 0`, which
/// for an unsigned word is the test whether the two share a set bit.
#[verifier::external_body]
pub(crate) fn flag_set(word: u32, flag: u32) -> (set: bool)
    ensures
        set == flag_is_set(word, flag),
{
    word.is_flag_set(flag)
}

/// Trusted: `bitops::BitOps::is_bit_set` on `u32`. The crate shifts one left by `n` and tests
/// the word against it; the shift overflows from `n == 32` on, so those are left out.
#[verifier::external_body]
pub(crate) fn bit_set(word: u32, n: u8) -> (set: bool)
    requires
        n < 32,
    ensures
        set == bit_is_set(word, n),
{
    word.is_bit_set(n)
}

/// Trusted: `bitops::BitOps::bits_as_int` on `u32`. The crate shifts the word right by `start`
/// and masks it with `(1 << count) - 1`; either shift overflows from 32 on, so those are left
/// out.
#[verifier::external_body]
pub(crate) fn bits_of(word: u32, start: u8, count: u8) -> (bits: u32)
    requires
        start < 32,
        count < 32,
    ensures
        bits == bit_range(word, start, count),
{
    word.bits_as_int(start, count)
}

/// Trusted: `byteorder::LittleEndian::read_u16`, which reads the first two bytes of the buffer
/// as a little-endian number and panics on a shorter buffer.
#[verifier::external_body]
pub(crate) fn le_read_u16(buf: &[u8]) -> (value: u16)
    requires
        buf@.len() >= 2,
    ensures
        value == le_u16(buf@, 0),
{
    LittleEndian::read_u16(buf)
}

/// Trusted: `byteorder::LittleEndian::read_u32`, which reads the first four bytes of the buffer
/// as a little-endian number and panics on a shorter buffer.
#[verifier::external_body]
pub(crate) fn le_read_u32(buf: &[u8]) -> (value: u32)
    requires
        buf@.len() >= 4,
    ensures
        value == le_u32(buf@, 0),
{
    LittleEndian::read_u32(buf)
}

/// Trusted: `byteorder::LittleEndian::read_u64`, which reads the first eight bytes of the buffer
/// as a little-endian number and panics on a shorter buffer.
#[verifier::external_body]
pub(crate) fn le_read_u64(buf: &[u8]) -> (value: u64)
    requires
        buf@.len() >= 8,
    ensures
        value == le_u64(buf@, 0),
{
    LittleEndian::read_u64(buf)
}

/// Tests bit `n` of `word`, counting from the least significant bit. A word has no bit beyond
/// the thirty-second, so the answer for such an `n` is `false`.
pub fn is_bit_set(word: u32, n: u8) -> (set: bool)
    ensures
        set == bit_is_set(word, n),
{
    if n < 32 {
        bit_set(word, n)
    } else {
        false
    }
}

/// The bits of `word` from bit `start` on, `count` of them or as many as the word has, moved
/// down to bit zero.
pub open spec fn bits_from(word: u32, start: u8, count: u8) -> u32 {
    if start >= 32 {
        0
    } else if count >= 32 {
        word >> (start as u32)
    } else {
        bit_range(word, start, count)
    }
}

/// Extracts `count` bits of `word` from bit `start` on, as a number. A word has no bit beyond
/// the thirty-second: what is asked for beyond it is zero.
pub fn bits_as_int(word: u32, start: u8, count: u8) -> (bits: u32)
    ensures
        bits == bits_from(word, start, count),
{
    if start >= 32 {
        0
    } else if count >= 32 {
        word >> (start as u32)
    } else {
        bits_of(word, start, count)
    }
}

/// Advances `pos` to the next multiple of `n`, or leaves it where it is if it is one already.
///
/// The boundary is a power of two up to eight, so rounding up is adding `n - 1` and clearing
/// the bits below `n`.
pub fn align_to(pos: usize, n: usize) -> (next: usize)
    requires
        n == 1 || n == 2 || n == 4 || n == 8,
        pos + n <= usize::MAX,
    ensures
        next == aligned(pos as int, n as int),
        next % n == 0,
        pos <= next < pos + n,
{
    let p: u64 = pos as u64;
    let m: u64 = n as u64;
    let q: u64 = (p + (m - 1)) & !(m - 1);
    assert({
        &&& m == 1 ==> q == p
        &&& m == 2 ==> q % 2 == 0 && p <= q && q < p + 2
        &&& m == 4 ==> q % 4 == 0 && p <= q && q < p + 4
        &&& m == 8 ==> q % 8 == 0 && p <= q && q < p + 8
    }) by (bit_vector)
        requires
            m == 1 || m == 2 || m == 4 || m == 8,
            p + m <= 0xffff_ffff_ffff_ffff,
            q == (p + (m - 1) as u64) as u64 & !((m - 1) as u64),
    ;
    q as usize
}

/// Advances `pos` to the next multiple of `n` as `align_to` does, as long as that is no more
/// than `limit`.
pub fn align_within(pos: usize, n: usize, limit: usize) -> (next: Option<usize>)
    requires
        n == 1 || n == 2 || n == 4 || n == 8,
    ensures
        next == if aligned(pos as int, n as int) <= limit {
            Some(aligned(pos as int, n as int) as usize)
        } else {
            None
        },
{
    proof {
        lemma_aligned(pos as int, n as int);
    }
    if pos > limit {
        return None;
    }
    let over = pos % n;
    if over == 0 {
        Some(pos)
    } else if n - over > limit - pos {
        None
    } else {
        Some(pos + (n - over))
    }
}

/// Reads the byte at `at`.
pub fn read_u8(input: &[u8], at: usize) -> (value: u8)
    requires
        at < input.len(),
    ensures
        value == input@[at as int],
{
    input[at]
}

/// Reads the byte at `at` as a two's complement number.
pub fn read_i8(input: &[u8], at: usize) -> (value: i8)
    requires
        at < input.len(),
    ensures
        value == twos_complement(input@[at as int]),
{
    let byte: u8 = input[at];
    assert(byte as i8 == (if byte < 0x80 { byte as int } else { byte - 0x100 })) by (bit_vector);
    byte as i8
}

/// Reads the little-endian 16-bit number at `at`.
pub fn read_u16(input: &[u8], at: usize) -> (value: u16)
    requires
        at + 2 <= input.len(),
    ensures
        value == le_u16(input@, at as int),
{
    le_read_u16(&input[at..at + 2])
}

/// Reads the little-endian 32-bit number at `at`.
pub fn read_u32(input: &[u8], at: usize) -> (value: u32)
    requires
        at + 4 <= input.len(),
    ensures
        value == le_u32(input@, at as int),
{
    le_read_u32(&input[at..at + 4])
}

/// Reads the little-endian 64-bit number at `at`.
pub fn read_u64(input: &[u8], at: usize) -> (value: u64)
    requires
        at + 8 <= input.len(),
    ensures
        value == le_u64(input@, at as int),
{
    le_read_u64(&input[at..at + 8])
}

/// The low and the high bits of a byte, as the masks and shifts of the wire format give them,
/// are remainders and quotients by powers of two.
pub proof fn lemma_byte_parts(byte: u8)
    by (bit_vector)
    ensures
        byte & 0x03 == byte % 4,
        byte & 0x0f == byte % 16,
        byte & 0x1f == byte % 32,
        byte >> 4 == byte / 16,
        bit_range(byte as u32, 5, 2) == (byte / 32) % 4,
{
}

/// The low `count` bits of a byte, for two, four or five bits.
pub(crate) fn low_bits(byte: u8, count: u8) -> (bits: u8)
    requires
        count == 2 || count == 4 || count == 5,
    ensures
        count == 2 ==> bits == byte % 4,
        count == 4 ==> bits == byte % 16,
        count == 5 ==> bits == byte % 32,
{
    proof {
        lemma_byte_parts(byte);
    }
    if count == 2 {
        byte & 0x03
    } else if count == 4 {
        byte & 0x0f
    } else {
        byte & 0x1f
    }
}

/// The high four bits of a byte.
pub(crate) fn high_nibble(byte: u8) -> (bits: u8)
    ensures
        bits == byte / 16,
{
    proof {
        lemma_byte_parts(byte);
    }
    byte >> 4
}

} // verus!
