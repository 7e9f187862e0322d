//! Bounds-checked big-endian primitive reader over a byte buffer with
//! an explicit cursor.
//!
//! Every read fails with `TruncatedData` when fewer bytes remain than
//! requested; there is no silent zero-fill. The cursor position can be
//! read back and re-set, so independently offset structures inside one
//! shared buffer can be visited in any order.

use vstd::prelude::*;
use crate::error::FontError;

verus! {

/// The big-endian `u16` stored at byte offset `i` of `d`.
pub open spec fn be_u16_at(d: Seq<u8>, i: int) -> u16
    recommends
        0 <= i,
        i + 2 <= d.len(),
{
    ((d[i] as int) * 0x100 + (d[i + 1] as int)) as u16
}

/// The big-endian two's-complement `i16` stored at byte offset `i` of `d`.
pub open spec fn be_i16_at(d: Seq<u8>, i: int) -> i16
    recommends
        0 <= i,
        i + 2 <= d.len(),
{
    let v = (d[i] as int) * 0x100 + (d[i + 1] as int);
    if v < 0x8000 {
        v as i16
    } else {
        (v - 0x10000) as i16
    }
}

/// The big-endian `u32` stored at byte offset `i` of `d`.
pub open spec fn be_u32_at(d: Seq<u8>, i: int) -> u32
    recommends
        0 <= i,
        i + 4 <= d.len(),
{
    ((d[i] as int) * 0x1000000 + (d[i + 1] as int) * 0x10000 + (d[i + 2] as int) * 0x100 + (d[i
        + 3] as int)) as u32
}

/// The big-endian `u64` stored at byte offset `i` of `d`.
pub open spec fn be_u64_at(d: Seq<u8>, i: int) -> u64
    recommends
        0 <= i,
        i + 8 <= d.len(),
{
    ((be_u32_at(d, i) as int) * 0x100000000 + (be_u32_at(d, i + 4) as int)) as u64
}

/// The big-endian two's-complement `i64` stored at byte offset `i` of `d`.
pub open spec fn be_i64_at(d: Seq<u8>, i: int) -> i64
    recommends
        0 <= i,
        i + 8 <= d.len(),
{
    let v = (be_u32_at(d, i) as int) * 0x100000000 + (be_u32_at(d, i + 4) as int);
    if v < 0x8000000000000000 {
        v as i64
    } else {
        (v - 0x10000000000000000) as i64
    }
}

/// Sequential big-endian reader over a borrowed byte buffer.
pub struct Reader<'a> {
    data: &'a [u8],
    pos: usize,
}

impl<'a> Reader<'a> {
    /// The bytes the reader ranges over.
    pub closed spec fn bytes(&self) -> Seq<u8> {
        self.data@
    }

    /// The current cursor position.
    pub closed spec fn position_spec(&self) -> int {
        self.pos as int
    }

    /// The cursor never stands past the end of the buffer.
    pub closed spec fn wf(&self) -> bool {
        self.pos <= self.data@.len()
    }

    /// A reader over `data` with the cursor at the start.
    pub fn new(data: &'a [u8]) -> (r: Reader<'a>)
        ensures
            r.bytes() == data@,
            r.position_spec() == 0,
            r.wf(),
    {
        Reader { data, pos: 0 }
    }

    /// The current cursor position as a byte index.
    pub fn position(&self) -> (p: usize)
        ensures
            p == self.position_spec(),
    {
        self.pos
    }

    /// Moves the cursor to the absolute byte position `p`, validated
    /// against the buffer length.
    pub fn set_position(&mut self, p: usize) -> (r: Result<(), FontError>)
        ensures
            final(self).bytes() == old(self).bytes(),
            match r {
                Ok(()) => p <= old(self).bytes().len() && final(self).position_spec() == p,
                Err(e) => e == FontError::TruncatedData && p > old(self).bytes().len() && final(self).position_spec() == old(self).position_spec(),
            },
            final(self).wf() <==> (r is Ok || old(self).wf()),
    {
        if p <= self.data.len() {
            self.pos = p;
            Ok(())
        } else {
            Err(FontError::TruncatedData)
        }
    }

    /// Reads one byte and advances the cursor.
    pub fn read_u8(&mut self) -> (r: Result<u8, FontError>)
        requires
            old(self).wf(),
        ensures
            final(self).bytes() == old(self).bytes(),
            final(self).wf(),
            match r {
                Ok(v) => old(self).position_spec() + 1 <= old(self).bytes().len() && v == old(self).bytes()[old(self).position_spec()] && final(self).position_spec() == old(self).position_spec() + 1,
                Err(e) => e == FontError::TruncatedData && old(self).position_spec() + 1 > old(self).bytes().len() && final(self).position_spec() == old(self).position_spec(),
            },
    {
        if self.data.len() - self.pos >= 1 {
            let b = self.data[self.pos];
            self.pos = self.pos + 1;
            Ok(b)
        } else {
            Err(FontError::TruncatedData)
        }
    }

    /// Reads a big-endian `u16` and advances the cursor by two.
    pub fn read_u16(&mut self) -> (r: Result<u16, FontError>)
        requires
            old(self).wf(),
        ensures
            final(self).bytes() == old(self).bytes(),
            final(self).wf(),
            match r {
                Ok(v) => old(self).position_spec() + 2 <= old(self).bytes().len() && v == be_u16_at(
                    old(self).bytes(),
                    old(self).position_spec(),
                ) && final(self).position_spec() == old(self).position_spec() + 2,
                Err(e) => e == FontError::TruncatedData && old(self).position_spec() + 2 > old(self).bytes().len() && final(self).position_spec() == old(self).position_spec(),
            },
    {
        if self.data.len() - self.pos >= 2 {
            let b0 = self.data[self.pos];
            let b1 = self.data[self.pos + 1];
            self.pos = self.pos + 2;
            Ok((b0 as u16) * 0x100 + (b1 as u16))
        } else {
            Err(FontError::TruncatedData)
        }
    }

    /// Reads a big-endian two's-complement `i16` and advances the cursor
    /// by two.
    pub fn read_i16(&mut self) -> (r: Result<i16, FontError>)
        requires
            old(self).wf(),
        ensures
            final(self).bytes() == old(self).bytes(),
            final(self).wf(),
            match r {
                Ok(v) => old(self).position_spec() + 2 <= old(self).bytes().len() && v == be_i16_at(
                    old(self).bytes(),
                    old(self).position_spec(),
                ) && final(self).position_spec() == old(self).position_spec() + 2,
                Err(e) => e == FontError::TruncatedData && old(self).position_spec() + 2 > old(self).bytes().len() && final(self).position_spec() == old(self).position_spec(),
            },
    {
        match self.read_u16() {
            Ok(v) => {
                if v < 0x8000 {
                    Ok(v as i16)
                } else {
                    Ok(((v as i32) - 0x10000) as i16)
                }
            },
            Err(e) => Err(e),
        }
    }

    /// Reads a big-endian `u32` and advances the cursor by four.
    pub fn read_u32(&mut self) -> (r: Result<u32, FontError>)
        requires
            old(self).wf(),
        ensures
            final(self).bytes() == old(self).bytes(),
            final(self).wf(),
            match r {
                Ok(v) => old(self).position_spec() + 4 <= old(self).bytes().len() && v == be_u32_at(
                    old(self).bytes(),
                    old(self).position_spec(),
                ) && final(self).position_spec() == old(self).position_spec() + 4,
                Err(e) => e == FontError::TruncatedData && old(self).position_spec() + 4 > old(self).bytes().len() && final(self).position_spec() == old(self).position_spec(),
            },
    {
        if self.data.len() - self.pos >= 4 {
            let b0 = self.data[self.pos];
            let b1 = self.data[self.pos + 1];
            let b2 = self.data[self.pos + 2];
            let b3 = self.data[self.pos + 3];
            self.pos = self.pos + 4;
            Ok((b0 as u32) * 0x1000000 + (b1 as u32) * 0x10000 + (b2 as u32) * 0x100 + (b3 as u32))
        } else {
            Err(FontError::TruncatedData)
        }
    }

    /// Reads a big-endian two's-complement `i64` and advances the cursor
    /// by eight.
    pub fn read_i64(&mut self) -> (r: Result<i64, FontError>)
        requires
            old(self).wf(),
        ensures
            final(self).bytes() == old(self).bytes(),
            final(self).wf(),
            match r {
                Ok(v) => old(self).position_spec() + 8 <= old(self).bytes().len() && v == be_i64_at(
                    old(self).bytes(),
                    old(self).position_spec(),
                ) && final(self).position_spec() == old(self).position_spec() + 8,
                Err(e) => e == FontError::TruncatedData && old(self).position_spec() + 8 > old(self).bytes().len() && final(self).position_spec() == old(self).position_spec(),
            },
    {
        if self.data.len() - self.pos >= 8 {
            let hi = match self.read_u32() {
                Ok(v) => v,
                Err(_) => 0,
            };
            let lo = match self.read_u32() {
                Ok(v) => v,
                Err(_) => 0,
            };
            let v: u64 = (hi as u64) * 0x100000000 + (lo as u64);
            if v < 0x8000000000000000 {
                Ok(v as i64)
            } else {
                Ok(((v as i128) - 0x10000000000000000) as i64)
            }
        } else {
            Err(FontError::TruncatedData)
        }
    }

    /// Reads `count` consecutive big-endian `u16` values.
    pub fn read_u16_array(&mut self, count: usize) -> (r: Result<Vec<u16>, FontError>)
        requires
            old(self).wf(),
            old(self).position_spec() + 2 * count <= usize::MAX,
        ensures
            final(self).bytes() == old(self).bytes(),
            final(self).wf(),
            match r {
                Ok(v) => {
                    &&& old(self).position_spec() + 2 * count <= old(self).bytes().len()
                    &&& v@.len() == count
                    &&& forall|j: int|
                        0 <= j < count ==> v@[j] == be_u16_at(
                            old(self).bytes(),
                            old(self).position_spec() + 2 * j,
                        )
                    &&& final(self).position_spec() == old(self).position_spec() + 2 * count
                },
                Err(e) => e == FontError::TruncatedData && old(self).position_spec() + 2 * count
                    > old(self).bytes().len(),
            },
    {
        if self.data.len() - self.pos < 2 * count {
            return Err(FontError::TruncatedData);
        }
        let ghost start = self.pos as int;
        let mut v: Vec<u16> = Vec::new();
        let mut i: usize = 0;
        while i < count
            invariant
                self.wf(),
                self.bytes() == old(self).bytes(),
                i <= count,
                start + 2 * count <= self.bytes().len(),
                self.position_spec() == start + 2 * i,
                v@.len() == i,
                forall|j: int| 0 <= j < i ==> v@[j] == be_u16_at(self.bytes(), start + 2 * j),
            decreases count - i,
        {
            let x = match self.read_u16() {
                Ok(x) => x,
                Err(e) => {
                    proof {
                        assert(false);
                    }
                    return Err(e);
                },
            };
            v.push(x);
            i = i + 1;
        }
        Ok(v)
    }

    /// Reads `count` consecutive big-endian two's-complement `i16`
    /// values.
    pub fn read_i16_array(&mut self, count: usize) -> (r: Result<Vec<i16>, FontError>)
        requires
            old(self).wf(),
            old(self).position_spec() + 2 * count <= usize::MAX,
        ensures
            final(self).bytes() == old(self).bytes(),
            final(self).wf(),
            match r {
                Ok(v) => {
                    &&& old(self).position_spec() + 2 * count <= old(self).bytes().len()
                    &&& v@.len() == count
                    &&& forall|j: int|
                        0 <= j < count ==> v@[j] == be_i16_at(
                            old(self).bytes(),
                            old(self).position_spec() + 2 * j,
                        )
                    &&& final(self).position_spec() == old(self).position_spec() + 2 * count
                },
                Err(e) => e == FontError::TruncatedData && old(self).position_spec() + 2 * count
                    > old(self).bytes().len(),
            },
    {
        if self.data.len() - self.pos < 2 * count {
            return Err(FontError::TruncatedData);
        }
        let ghost start = self.pos as int;
        let mut v: Vec<i16> = Vec::new();
        let mut i: usize = 0;
        while i < count
            invariant
                self.wf(),
                self.bytes() == old(self).bytes(),
                i <= count,
                start + 2 * count <= self.bytes().len(),
                self.position_spec() == start + 2 * i,
                v@.len() == i,
                forall|j: int| 0 <= j < i ==> v@[j] == be_i16_at(self.bytes(), start + 2 * j),
            decreases count - i,
        {
            let x = match self.read_i16() {
                Ok(x) => x,
                Err(e) => {
                    proof {
                        assert(false);
                    }
                    return Err(e);
                },
            };
            v.push(x);
            i = i + 1;
        }
        Ok(v)
    }

    /// Copies the next `n` bytes out of the buffer and advances the
    /// cursor by `n`.
    pub fn read_bytes(&mut self, n: usize) -> (r: Result<Vec<u8>, FontError>)
        requires
            old(self).wf(),
        ensures
            final(self).bytes() == old(self).bytes(),
            final(self).wf(),
            match r {
                Ok(v) => old(self).position_spec() + n <= old(self).bytes().len() && v@ == old(self).bytes().subrange(
                    old(self).position_spec(),
                    old(self).position_spec() + n,
                ) && final(self).position_spec() == old(self).position_spec() + n,
                Err(e) => e == FontError::TruncatedData && old(self).position_spec() + n > old(self).bytes().len() && final(self).position_spec() == old(self).position_spec(),
            },
    {
        if n <= self.data.len() - self.pos {
            let s = vstd::slice::slice_subrange(self.data, self.pos, self.pos + n);
            let v = vstd::slice::slice_to_vec(s);
            self.pos = self.pos + n;
            Ok(v)
        } else {
            Err(FontError::TruncatedData)
        }
    }
}

} // verus!
