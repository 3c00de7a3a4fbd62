//! A read position over a byte slice.

use crate::bits::{align_to, aligned, le_u16, le_u32, le_u64, twos_complement};
use crate::bits::{read_i8, read_u16, read_u32, read_u64, read_u8};
use crate::error::ErrorKind;
use vstd::prelude::*;
use vstd::slice::*;

verus! {

broadcast use group_slice_axioms;

/// A position in a byte slice that the reads advance.
///
/// Position zero is the first byte of the slice, so a cursor over a whole capture aligns
/// relative to the start of the Radiotap header. The position may lie past the end of the
/// slice, as it can after aligning; every read from there fails.
pub struct Cursor<'a> {
    data: &'a [u8],
    pos: usize,
}

impl<'a> Cursor<'a> {
    /// The bytes under the cursor.
    pub closed spec fn bytes(&self) -> Seq<u8> {
        self.data@
    }

    /// The offset of the next byte to be read.
    pub closed spec fn offset(&self) -> nat {
        self.pos as nat
    }

    /// Whether `n` more bytes can be read.
    pub open spec fn has(&self, n: nat) -> bool {
        self.offset() + n <= self.bytes().len()
    }

    /// A cursor at the start of `data`.
    pub fn new(data: &'a [u8]) -> (cursor: Self)
        ensures
            cursor.bytes() == data@,
            cursor.offset() == 0,
    {
        Cursor { data, pos: 0 }
    }

    /// The offset of the next byte to be read.
    pub fn position(&self) -> (pos: usize)
        ensures
            pos == self.offset(),
    {
        self.pos
    }

    /// Moves the cursor to `pos`, which may lie past the end.
    pub fn set_position(&mut self, pos: usize)
        ensures
            final(self).bytes() == old(self).bytes(),
            final(self).offset() == pos,
    {
        self.pos = pos;
    }

    /// The number of bytes between the cursor and the end of the slice.
    pub fn remaining(&self) -> (n: usize)
        ensures
            self.bytes().len() <= usize::MAX,
            n == if self.offset() <= self.bytes().len() {
                self.bytes().len() - self.offset()
            } else {
                0
            },
    {
        if self.pos <= self.data.len() {
            self.data.len() - self.pos
        } else {
            0
        }
    }

    /// Advances the cursor to the next multiple of `n`; stays if it is on one.
    pub fn align(&mut self, n: usize)
        requires
            n == 1 || n == 2 || n == 4 || n == 8,
            old(self).offset() + n <= usize::MAX,
        ensures
            final(self).bytes() == old(self).bytes(),
            final(self).offset() == aligned(old(self).offset() as int, n as int),
            final(self).offset() % (n as nat) == 0,
            old(self).offset() <= final(self).offset() < old(self).offset() + n,
    {
        self.pos = align_to(self.pos, n);
    }

    /// Reads `n` bytes and steps over them. Fails, without moving, if fewer are left.
    pub fn read_bytes(&mut self, n: usize) -> (r: Result<&'a [u8], ErrorKind>)
        ensures
            final(self).bytes() == old(self).bytes(),
            old(self).has(n as nat) ==> final(self).offset() == old(self).offset() + n && r is Ok
                && r->Ok_0@ == old(self).bytes().subrange(
                old(self).offset() as int,
                old(self).offset() + n,
            ),
            !old(self).has(n as nat) ==> final(self).offset() == old(self).offset() && r == Err::<
                &[u8],
                ErrorKind,
            >(ErrorKind::IoError),
    {
        if self.pos > self.data.len() || self.remaining() < n {
            return Err(ErrorKind::IoError);
        }
        let data: &'a [u8] = self.data;
        let part = &data[self.pos..self.pos + n];
        self.pos = self.pos + n;
        Ok(part)
    }

    /// Reads one byte. Fails, without moving, at the end of the slice.
    pub fn read_u8(&mut self) -> (r: Result<u8, ErrorKind>)
        ensures
            final(self).bytes() == old(self).bytes(),
            old(self).has(1) ==> final(self).offset() == old(self).offset() + 1 && r == Ok::<
                u8,
                ErrorKind,
            >(old(self).bytes()[old(self).offset() as int]),
            !old(self).has(1) ==> final(self).offset() == old(self).offset() && r == Err::<
                u8,
                ErrorKind,
            >(ErrorKind::IoError),
    {
        if self.remaining() < 1 {
            return Err(ErrorKind::IoError);
        }
        let value = read_u8(self.data, self.pos);
        self.pos = self.pos + 1;
        Ok(value)
    }

    /// Reads one byte as a two's complement number. Fails, without moving, at the end of the
    /// slice.
    pub fn read_i8(&mut self) -> (r: Result<i8, ErrorKind>)
        ensures
            final(self).bytes() == old(self).bytes(),
            old(self).has(1) ==> final(self).offset() == old(self).offset() + 1 && r is Ok
                && r->Ok_0 == twos_complement(old(self).bytes()[old(self).offset() as int]),
            !old(self).has(1) ==> final(self).offset() == old(self).offset() && r == Err::<
                i8,
                ErrorKind,
            >(ErrorKind::IoError),
    {
        if self.remaining() < 1 {
            return Err(ErrorKind::IoError);
        }
        let value = read_i8(self.data, self.pos);
        self.pos = self.pos + 1;
        Ok(value)
    }

    /// Reads a little-endian 16-bit number. Fails, without moving, if fewer than two bytes are
    /// left.
    pub fn read_u16(&mut self) -> (r: Result<u16, ErrorKind>)
        ensures
            final(self).bytes() == old(self).bytes(),
            old(self).has(2) ==> final(self).offset() == old(self).offset() + 2 && r is Ok
                && r->Ok_0 == le_u16(old(self).bytes(), old(self).offset() as int),
            !old(self).has(2) ==> final(self).offset() == old(self).offset() && r == Err::<
                u16,
                ErrorKind,
            >(ErrorKind::IoError),
    {
        if self.remaining() < 2 {
            return Err(ErrorKind::IoError);
        }
        let value = read_u16(self.data, self.pos);
        self.pos = self.pos + 2;
        Ok(value)
    }

    /// Reads a little-endian 32-bit number. Fails, without moving, if fewer than four bytes are
    /// left.
    pub fn read_u32(&mut self) -> (r: Result<u32, ErrorKind>)
        ensures
            final(self).bytes() == old(self).bytes(),
            old(self).has(4) ==> final(self).offset() == old(self).offset() + 4 && r is Ok
                && r->Ok_0 == le_u32(old(self).bytes(), old(self).offset() as int),
            !old(self).has(4) ==> final(self).offset() == old(self).offset() && r == Err::<
                u32,
                ErrorKind,
            >(ErrorKind::IoError),
    {
        if self.remaining() < 4 {
            return Err(ErrorKind::IoError);
        }
        let value = read_u32(self.data, self.pos);
        self.pos = self.pos + 4;
        Ok(value)
    }

    /// Reads a little-endian 64-bit number. Fails, without moving, if fewer than eight bytes
    /// are left.
    pub fn read_u64(&mut self) -> (r: Result<u64, ErrorKind>)
        ensures
            final(self).bytes() == old(self).bytes(),
            old(self).has(8) ==> final(self).offset() == old(self).offset() + 8 && r is Ok
                && r->Ok_0 == le_u64(old(self).bytes(), old(self).offset() as int),
            !old(self).has(8) ==> final(self).offset() == old(self).offset() && r == Err::<
                u64,
                ErrorKind,
            >(ErrorKind::IoError),
    {
        if self.remaining() < 8 {
            return Err(ErrorKind::IoError);
        }
        let value = read_u64(self.data, self.pos);
        self.pos = self.pos + 8;
        Ok(value)
    }
}

} // verus!
