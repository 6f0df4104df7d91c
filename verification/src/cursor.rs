//! Bounds-checked little-endian reader over an in-memory byte buffer.

use vstd::prelude::*;

verus! {

/// Why a decode step could not finish.
#[derive(Clone, Copy, PartialEq, Eq, Structural, Debug)]
pub enum DecodeError {
    /// Fewer bytes remain than the next declared read needs.
    BufferTooShort,
    /// The version header has no NUL terminator before the buffer ends.
    MissingTerminator,
    /// A raw timestamp precedes the established zero point.
    NonMonotonicTimestamp,
}

/// The u16 stored little-endian at byte offset `i` of `s`.
pub open spec fn le16(s: Seq<u8>, i: int) -> u16 {
    (s[i] + s[i + 1] * 0x100) as u16
}

/// The u32 stored little-endian at byte offset `i` of `s`.
pub open spec fn le32(s: Seq<u8>, i: int) -> u32 {
    (s[i] + s[i + 1] * 0x100 + s[i + 2] * 0x1_0000 + s[i + 3] * 0x100_0000) as u32
}

/// Reads the little-endian u32 at `index`.
pub fn read_u32_le(buffer: &Vec<u8>, index: usize) -> (r: u32)
    requires
        index + 4 <= buffer@.len(),
    ensures
        r == le32(buffer@, index as int),
{
    // Binding the length as a machine word brings its bound into scope
    // for the index arithmetic below.
    let _n: usize = buffer.len();
    let b0 = buffer[index] as u32;
    let b1 = buffer[index + 1] as u32;
    let b2 = buffer[index + 2] as u32;
    let b3 = buffer[index + 3] as u32;
    b0 + b1 * 0x100 + b2 * 0x1_0000 + b3 * 0x100_0000
}

/// Reads the little-endian u16 at `index`.
pub fn read_u16_le(buffer: &Vec<u8>, index: usize) -> (r: u16)
    requires
        index + 2 <= buffer@.len(),
    ensures
        r == le16(buffer@, index as int),
{
    // See read_u32_le on why the length is bound here.
    let _n: usize = buffer.len();
    let b0 = buffer[index] as u16;
    let b1 = buffer[index + 1] as u16;
    b0 + b1 * 0x100
}

/// Reads the byte at `index`.
pub fn read_u8_le(buffer: &Vec<u8>, index: usize) -> (r: u8)
    requires
        index + 1 <= buffer@.len(),
    ensures
        r == buffer@[index as int],
{
    buffer[index]
}

/// A byte buffer together with a read position; every read checks bounds
/// and advances the position by the width it consumed.
pub struct ByteCursor {
    buf: Vec<u8>,
    pos: usize,
}

impl ByteCursor {
    /// The underlying bytes.
    pub closed spec fn bytes(self) -> Seq<u8> {
        self.buf@
    }

    /// The current read position.
    pub closed spec fn pos(self) -> int {
        self.pos as int
    }

    /// The position never passes the end of the buffer.
    pub open spec fn wf(self) -> bool {
        self.pos() <= self.bytes().len()
    }

    /// Bytes left between the position and the end of the buffer.
    pub open spec fn remaining_spec(self) -> int {
        self.bytes().len() - self.pos()
    }

    pub fn new(buf: Vec<u8>) -> (c: ByteCursor)
        ensures
            c.bytes() == buf@,
            c.pos() == 0,
            c.wf(),
    {
        ByteCursor { buf, pos: 0 }
    }

    /// Starts reading at `start` instead of the buffer's first byte.
    pub fn new_at(buf: Vec<u8>, start: usize) -> (c: ByteCursor)
        requires
            start <= buf@.len(),
        ensures
            c.bytes() == buf@,
            c.pos() == start,
            c.wf(),
    {
        ByteCursor { buf, pos: start }
    }

    pub fn position(&self) -> (p: usize)
        ensures
            p == self.pos(),
    {
        self.pos
    }

    pub fn buffer_len(&self) -> (n: usize)
        ensures
            n == self.bytes().len(),
    {
        self.buf.len()
    }

    pub fn remaining(&self) -> (n: usize)
        requires
            self.wf(),
        ensures
            n == self.remaining_spec(),
    {
        self.buf.len() - self.pos
    }

    pub fn read_u8(&mut self) -> (r: Result<u8, DecodeError>)
        requires
            old(self).wf(),
        ensures
            final(self).bytes() == old(self).bytes(),
            final(self).wf(),
            old(self).remaining_spec() >= 1 ==> {
                &&& r matches Ok(b) && b == old(self).bytes()[old(self).pos()]
                &&& final(self).pos() == old(self).pos() + 1
            },
            old(self).remaining_spec() < 1 ==> {
                &&& r matches Err(e) && e == DecodeError::BufferTooShort
                &&& final(self).pos() == old(self).pos()
            },
    {
        if self.buf.len() - self.pos < 1 {
            return Err(DecodeError::BufferTooShort);
        }
        let b = read_u8_le(&self.buf, self.pos);
        self.pos = self.pos + 1;
        Ok(b)
    }

    pub fn read_u16(&mut self) -> (r: Result<u16, DecodeError>)
        requires
            old(self).wf(),
        ensures
            final(self).bytes() == old(self).bytes(),
            final(self).wf(),
            old(self).remaining_spec() >= 2 ==> {
                &&& r matches Ok(v) && v == le16(old(self).bytes(), old(self).pos())
                &&& final(self).pos() == old(self).pos() + 2
            },
            old(self).remaining_spec() < 2 ==> {
                &&& r matches Err(e) && e == DecodeError::BufferTooShort
                &&& final(self).pos() == old(self).pos()
            },
    {
        if self.buf.len() - self.pos < 2 {
            return Err(DecodeError::BufferTooShort);
        }
        let v = read_u16_le(&self.buf, self.pos);
        self.pos = self.pos + 2;
        Ok(v)
    }

    pub fn read_u32(&mut self) -> (r: Result<u32, DecodeError>)
        requires
            old(self).wf(),
        ensures
            final(self).bytes() == old(self).bytes(),
            final(self).wf(),
            old(self).remaining_spec() >= 4 ==> {
                &&& r matches Ok(v) && v == le32(old(self).bytes(), old(self).pos())
                &&& final(self).pos() == old(self).pos() + 4
            },
            old(self).remaining_spec() < 4 ==> {
                &&& r matches Err(e) && e == DecodeError::BufferTooShort
                &&& final(self).pos() == old(self).pos()
            },
    {
        if self.buf.len() - self.pos < 4 {
            return Err(DecodeError::BufferTooShort);
        }
        let v = read_u32_le(&self.buf, self.pos);
        self.pos = self.pos + 4;
        Ok(v)
    }

    /// Reads an 8-byte frame header: the timestamp and the tag, both
    /// little-endian u32.
    pub fn read_frame_header(&mut self) -> (r: (u32, u32))
        requires
            old(self).wf(),
            old(self).remaining_spec() >= 8,
        ensures
            final(self).bytes() == old(self).bytes(),
            final(self).wf(),
            r.0 == le32(old(self).bytes(), old(self).pos()),
            r.1 == le32(old(self).bytes(), old(self).pos() + 4),
            final(self).pos() == old(self).pos() + 8,
    {
        // See read_u32_le on why the length is bound here.
        let _n: usize = self.buf.len();
        let ts = read_u32_le(&self.buf, self.pos);
        let tag = read_u32_le(&self.buf, self.pos + 4);
        self.pos = self.pos + 8;
        (ts, tag)
    }

    /// Reads the four bytes of a stored IEEE-754 `f32` as its bit pattern.
    pub fn read_f32_bits(&mut self) -> (r: Result<u32, DecodeError>)
        requires
            old(self).wf(),
        ensures
            final(self).bytes() == old(self).bytes(),
            final(self).wf(),
            old(self).remaining_spec() >= 4 ==> {
                &&& r matches Ok(v) && v == le32(old(self).bytes(), old(self).pos())
                &&& final(self).pos() == old(self).pos() + 4
            },
            old(self).remaining_spec() < 4 ==> {
                &&& r matches Err(e) && e == DecodeError::BufferTooShort
                &&& final(self).pos() == old(self).pos()
            },
    {
        self.read_u32()
    }
}

} // verus!
