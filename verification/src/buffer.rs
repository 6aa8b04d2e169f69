//! The byte cursor buffer: a fixed store of 512 byte cells and a read
//! cursor, with bounds-checked single-byte, range, and big-endian
//! multi-byte reads.

use vstd::prelude::*;

verus! {

/// Number of byte cells a buffer holds: the maximum size of one protocol
/// message.
pub const CAPACITY: usize = 512;

/// The sole failure a read reports: the access index reached or passed the
/// end of the buffer.
#[derive(Clone, Copy, Debug, PartialEq, Eq, Structural)]
pub enum BufferError {
    EndOfBuffer,
}

/// A fixed-capacity byte store paired with a read cursor.
///
/// The store is zero-initialized and meant to be filled from offset 0 by
/// the caller before reading begins. The cursor may be placed anywhere by
/// `step` and `seek` — including past the capacity — and is validated only
/// when a read targets a cell.
/// The value of two bytes read big-endian: the most-significant byte
/// first.
pub open spec fn u16_be(hi: u8, lo: u8) -> int {
    hi * 0x100 + lo
}

/// The value of four bytes read big-endian: the most-significant byte
/// first.
pub open spec fn u32_be(b0: u8, b1: u8, b2: u8, b3: u8) -> int {
    b0 * 0x1000000 + b1 * 0x10000 + b2 * 0x100 + b3
}

pub struct BytePacketBuffer {
    pub buf: [u8; CAPACITY],
    pub pos: usize,
}

impl BytePacketBuffer {
    /// A fresh buffer: every cell zero, cursor at the start.
    pub fn new() -> (r: BytePacketBuffer)
        ensures
            r.pos == 0,
            forall|i: int| 0 <= i < CAPACITY ==> r.buf@[i] == 0,
    {
        BytePacketBuffer { buf: [0; CAPACITY], pos: 0 }
    }

    /// Current position within the buffer; no side effect.
    pub fn pos(&self) -> (r: usize)
        ensures
            r == self.pos,
    {
        self.pos
    }

    /// Move the cursor forward by `steps`. Always succeeds, even when the
    /// new position lies past the capacity: validation is deferred to the
    /// next read.
    pub fn step(&mut self, steps: usize) -> (r: Result<(), BufferError>)
        requires
            old(self).pos + steps <= usize::MAX,
        ensures
            r == Ok::<(), BufferError>(()),
            final(self).pos == old(self).pos + steps,
            final(self).buf == old(self).buf,
    {
        self.pos += steps;
        Ok(())
    }

    /// Place the cursor at `pos`. Always succeeds, even when `pos` lies
    /// past the capacity: validation is deferred to the next read.
    pub fn seek(&mut self, pos: usize) -> (r: Result<(), BufferError>)
        ensures
            r == Ok::<(), BufferError>(()),
            final(self).pos == pos,
            final(self).buf == old(self).buf,
    {
        self.pos = pos;
        Ok(())
    }

    /// Read the byte under the cursor and move the cursor one step
    /// forward; fails without moving when the cursor is at or past the
    /// capacity.
    pub fn read(&mut self) -> (r: Result<u8, BufferError>)
        ensures
            final(self).buf == old(self).buf,
            old(self).pos < CAPACITY ==> {
                &&& r == Ok::<u8, BufferError>(old(self).buf@[old(self).pos as int])
                &&& final(self).pos == old(self).pos + 1
            },
            old(self).pos >= CAPACITY ==> {
                &&& r == Err::<u8, BufferError>(BufferError::EndOfBuffer)
                &&& final(self).pos == old(self).pos
            },
    {
        if self.pos >= CAPACITY {
            return Err(BufferError::EndOfBuffer);
        }
        let res = self.buf[self.pos];
        self.pos += 1;
        Ok(res)
    }

    /// Read the byte at `pos` without touching the cursor (this takes the
    /// buffer by shared reference, so no call can move the cursor); fails
    /// when `pos` is at or past the capacity.
    pub fn get(&self, pos: usize) -> (r: Result<u8, BufferError>)
        ensures
            pos < CAPACITY ==> r == Ok::<u8, BufferError>(self.buf@[pos as int]),
            pos >= CAPACITY ==> r == Err::<u8, BufferError>(BufferError::EndOfBuffer),
    {
        if pos >= CAPACITY {
            return Err(BufferError::EndOfBuffer);
        }
        Ok(self.buf[pos])
    }

    /// A view of the bytes at `[start, start + len)` without touching the
    /// cursor. Fails whenever `start + len` reaches the capacity — so the
    /// exact-fit range ending at the last cell is rejected too, although
    /// every cell in it is in bounds; that boundary is kept as it is.
    pub fn get_range(&self, start: usize, len: usize) -> (r: Result<&[u8], BufferError>)
        ensures
            start + len < CAPACITY ==> {
                &&& r is Ok
                &&& r->Ok_0@ == self.buf@.subrange(start as int, start + len)
            },
            start + len >= CAPACITY ==> r == Err::<&[u8], BufferError>(
                BufferError::EndOfBuffer,
            ),
    {
        if start >= CAPACITY || len >= CAPACITY - start {
            return Err(BufferError::EndOfBuffer);
        }
        Ok(vstd::slice::slice_subrange(self.buf.as_slice(), start, start + len))
    }

    /// Read two bytes big-endian, stepping the cursor past each byte that
    /// was actually read: on failure the cursor keeps whatever progress
    /// the completed sub-reads made.
    pub fn read_u16(&mut self) -> (r: Result<u16, BufferError>)
        ensures
            final(self).buf == old(self).buf,
            old(self).pos + 2 <= CAPACITY ==> {
                &&& r is Ok
                &&& r->Ok_0 == u16_be(
                    old(self).buf@[old(self).pos as int],
                    old(self).buf@[old(self).pos + 1],
                )
                &&& final(self).pos == old(self).pos + 2
            },
            old(self).pos + 2 > CAPACITY ==> {
                &&& r == Err::<u16, BufferError>(BufferError::EndOfBuffer)
                &&& final(self).pos == (if old(self).pos >= CAPACITY {
                    old(self).pos as int
                } else {
                    CAPACITY as int
                })
            },
    {
        let hi = match self.read() {
            Ok(b) => b,
            Err(e) => {
                return Err(e);
            },
        };
        let lo = match self.read() {
            Ok(b) => b,
            Err(e) => {
                return Err(e);
            },
        };
        let res = ((hi as u16) << 8u16) | (lo as u16);
        proof {
            assert(((hi as u16) << 8u16) | (lo as u16) == hi * 0x100 + lo) by (bit_vector);
        }
        Ok(res)
    }

    /// Read four bytes big-endian, stepping the cursor past each byte that
    /// was actually read: on failure the cursor keeps whatever progress
    /// the completed sub-reads made.
    pub fn read_u32(&mut self) -> (r: Result<u32, BufferError>)
        ensures
            final(self).buf == old(self).buf,
            old(self).pos + 4 <= CAPACITY ==> {
                &&& r is Ok
                &&& r->Ok_0 == u32_be(
                    old(self).buf@[old(self).pos as int],
                    old(self).buf@[old(self).pos + 1],
                    old(self).buf@[old(self).pos + 2],
                    old(self).buf@[old(self).pos + 3],
                )
                &&& final(self).pos == old(self).pos + 4
            },
            old(self).pos + 4 > CAPACITY ==> {
                &&& r == Err::<u32, BufferError>(BufferError::EndOfBuffer)
                &&& final(self).pos == (if old(self).pos >= CAPACITY {
                    old(self).pos as int
                } else {
                    CAPACITY as int
                })
            },
    {
        let b0 = match self.read() {
            Ok(b) => b,
            Err(e) => {
                return Err(e);
            },
        };
        let b1 = match self.read() {
            Ok(b) => b,
            Err(e) => {
                return Err(e);
            },
        };
        let b2 = match self.read() {
            Ok(b) => b,
            Err(e) => {
                return Err(e);
            },
        };
        let b3 = match self.read() {
            Ok(b) => b,
            Err(e) => {
                return Err(e);
            },
        };
        let res = ((b0 as u32) << 24u32) | ((b1 as u32) << 16u32) | ((b2 as u32) << 8u32) | (
        b3 as u32);
        proof {
            assert(((b0 as u32) << 24u32) | ((b1 as u32) << 16u32) | ((b2 as u32) << 8u32) | (
            b3 as u32) == b0 * 0x1000000 + b1 * 0x10000 + b2 * 0x100 + b3) by (bit_vector);
        }
        Ok(res)
    }
}

} // verus!
