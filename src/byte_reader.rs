//! A sequential big-endian reader over an in-memory byte buffer.
//!
//! Each read has a spec function over the buffer `d`, the end `e` of the
//! window that reads may not pass, and the position `p` at which the read
//! starts. It gives the value read and the position after it, or the error.

use vstd::prelude::*;
use crate::error::{error_at, DecodeError, ErrorKind};
use crate::utils::{be_u16, be_u32};

verus! {

/// The outcome of a read that starts at some position: the value and the
/// position after it, or the error.
pub type Parsed<T> = Result<(T, int), DecodeError>;

/// The error of a read of `n` bytes at `p` that passes the end of its window:
/// past the end of the buffer it is `UnexpectedEof`, inside the buffer (the
/// window of an attribute's declared length) it is `LengthMismatch`. Inside an
/// attribute's payload the attribute decoder reports both as `LengthMismatch`.
pub open spec fn overrun(d: Seq<u8>, p: int, n: int) -> DecodeError {
    error_at(
        if p + n > d.len() {
            ErrorKind::UnexpectedEof
        } else {
            ErrorKind::LengthMismatch
        },
        p,
    )
}

/// The big-endian u16 at `p`.
pub open spec fn u16_at(d: Seq<u8>, p: int) -> u16 {
    be_u16(d[p], d[p + 1])
}

/// The big-endian u32 at `p`.
pub open spec fn u32_at(d: Seq<u8>, p: int) -> u32 {
    be_u32(d[p], d[p + 1], d[p + 2], d[p + 3])
}

/// Reading `n` raw bytes.
pub open spec fn take_bytes(d: Seq<u8>, e: int, p: int, n: int) -> Parsed<Seq<u8>> {
    if p + n <= e {
        Ok((d.subrange(p, p + n), p + n))
    } else {
        Err(overrun(d, p, n))
    }
}

/// Reading one byte.
pub open spec fn take_u8(d: Seq<u8>, e: int, p: int) -> Parsed<u8> {
    if p + 1 <= e {
        Ok((d[p], p + 1))
    } else {
        Err(overrun(d, p, 1))
    }
}

/// Reading a big-endian u16.
pub open spec fn take_u16(d: Seq<u8>, e: int, p: int) -> Parsed<u16> {
    if p + 2 <= e {
        Ok((u16_at(d, p), p + 2))
    } else {
        Err(overrun(d, p, 2))
    }
}

/// Reading a big-endian u32.
pub open spec fn take_u32(d: Seq<u8>, e: int, p: int) -> Parsed<u32> {
    if p + 4 <= e {
        Ok((u32_at(d, p), p + 4))
    } else {
        Err(overrun(d, p, 4))
    }
}

/// Reading `n` consecutive big-endian u16 values; the whole table is checked
/// against the window before any of it is read.
pub open spec fn take_u16_table(d: Seq<u8>, e: int, p: int, n: int) -> Parsed<Seq<u16>> {
    if p + 2 * n <= e {
        Ok((Seq::new(n as nat, |i: int| u16_at(d, p + 2 * i)), p + 2 * n))
    } else {
        Err(overrun(d, p, 2 * n))
    }
}

/// Reading a u16 count followed by that many u16 values.
pub open spec fn take_u16_list(d: Seq<u8>, e: int, p: int) -> Parsed<Seq<u16>> {
    match take_u16(d, e, p) {
        Err(err) => Err(err),
        Ok((n, p1)) => take_u16_table(d, e, p1, n as int),
    }
}

/// `r` is what the spec-level read `s` gives, and `q` the position after it.
pub open spec fn agrees<T>(r: Result<T, DecodeError>, q: int, s: Parsed<T>) -> bool {
    match s {
        Ok((v, p)) => r == Ok::<T, DecodeError>(v) && q == p,
        Err(err) => r == Err::<T, DecodeError>(err),
    }
}

/// `r`, seen through its view, is what the spec-level read `s` gives, and `q`
/// the position after it.
pub open spec fn agrees_view<T: View>(r: Result<T, DecodeError>, q: int, s: Parsed<T::V>) -> bool {
    match s {
        Ok((v, p)) => r is Ok && r->Ok_0@ == v && q == p,
        Err(err) => r == Err::<T, DecodeError>(err),
    }
}

/// Binary reader over a byte buffer, with a window that reads may not pass.
pub struct ByteReader {
    /// Binary data as bytes
    data: Vec<u8>,
    /// Current read index into the byte buffer
    position: usize,
    /// End of the current window
    limit: usize,
}

impl ByteReader {
    /// The whole buffer.
    pub closed spec fn spec_data(&self) -> Seq<u8> {
        self.data@
    }

    /// The position of the next read.
    pub closed spec fn spec_pos(&self) -> int {
        self.position as int
    }

    /// The end of the current window.
    pub closed spec fn spec_limit(&self) -> int {
        self.limit as int
    }

    /// The position lies in the window, and the window in the buffer.
    pub open spec fn wf(&self) -> bool {
        0 <= self.spec_pos() <= self.spec_limit() <= self.spec_data().len()
    }

    /// Same buffer, same window.
    pub open spec fn same_source(&self, other: &ByteReader) -> bool {
        self.spec_data() == other.spec_data() && self.spec_limit() == other.spec_limit()
    }

    /// A reader at the start of `data`, whose window is the whole buffer.
    pub fn from_bytes(data: Vec<u8>) -> (r: ByteReader)
        ensures
            r.wf(),
            r.spec_data() == data@,
            r.spec_pos() == 0,
            r.spec_limit() == data@.len(),
    {
        let limit = data.len();
        ByteReader { data, position: 0, limit }
    }

    /// The current offset into the buffer.
    pub fn position(&self) -> (r: usize)
        ensures
            r == self.spec_pos(),
    {
        self.position
    }

    /// The number of bytes left in the current window.
    pub fn remaining(&self) -> (r: usize)
        requires
            self.wf(),
        ensures
            r == self.spec_limit() - self.spec_pos(),
    {
        self.limit - self.position
    }

    /// The end of the current window.
    pub(crate) fn limit(&self) -> (r: usize)
        ensures
            r == self.spec_limit(),
    {
        self.limit
    }

    /// Moves back to an earlier position in the current window.
    pub(crate) fn rewind(&mut self, position: usize)
        requires
            old(self).wf(),
            position <= old(self).spec_limit(),
        ensures
            final(self).wf(),
            final(self).same_source(old(self)),
            final(self).spec_pos() == position,
    {
        self.position = position;
    }

    /// Moves the end of the window.
    pub(crate) fn set_limit(&mut self, limit: usize)
        requires
            old(self).spec_pos() <= limit <= old(self).spec_data().len(),
        ensures
            final(self).wf(),
            final(self).spec_data() == old(self).spec_data(),
            final(self).spec_pos() == old(self).spec_pos(),
            final(self).spec_limit() == limit,
    {
        self.limit = limit;
    }

    /// The error of a read of `n` bytes here that does not fit in the window.
    pub(crate) fn overrun_error(&self, n: usize) -> (r: DecodeError)
        requires
            self.wf(),
        ensures
            r == overrun(self.spec_data(), self.spec_pos(), n as int),
    {
        let kind = if self.data.len() - self.position < n {
            ErrorKind::UnexpectedEof
        } else {
            ErrorKind::LengthMismatch
        };
        DecodeError { kind, offset: self.position }
    }

    /// Read N bytes from the current position in the binary blob
    pub fn read_n_bytes(&mut self, n: usize) -> (r: Result<Vec<u8>, DecodeError>)
        requires
            old(self).wf(),
        ensures
            final(self).wf(),
            final(self).same_source(old(self)),
            agrees_view(
                r,
                final(self).spec_pos(),
                take_bytes(old(self).spec_data(), old(self).spec_limit(), old(self).spec_pos(), n as int),
            ),
    {
        if self.limit - self.position < n {
            return Err(self.overrun_error(n));
        }
        let from = self.position;
        let mut out: Vec<u8> = Vec::with_capacity(n);
        let mut i: usize = 0;
        while i < n
            invariant
                self.wf(),
                self.position == from,
                from + n <= self.limit,
                i <= n,
                out@ =~= self.data@.subrange(from as int, from + i),
            decreases n - i,
        {
            out.push(self.data[from + i]);
            i += 1;
        }
        self.position = from + n;
        Ok(out)
    }

    /// Read one byte.
    pub fn read_u8(&mut self) -> (r: Result<u8, DecodeError>)
        requires
            old(self).wf(),
        ensures
            final(self).wf(),
            final(self).same_source(old(self)),
            agrees(
                r,
                final(self).spec_pos(),
                take_u8(old(self).spec_data(), old(self).spec_limit(), old(self).spec_pos()),
            ),
    {
        if self.limit - self.position < 1 {
            return Err(self.overrun_error(1));
        }
        let v = self.data[self.position];
        self.position = self.position + 1;
        Ok(v)
    }

    /// Read a big-endian u16.
    pub fn read_u16(&mut self) -> (r: Result<u16, DecodeError>)
        requires
            old(self).wf(),
        ensures
            final(self).wf(),
            final(self).same_source(old(self)),
            agrees(
                r,
                final(self).spec_pos(),
                take_u16(old(self).spec_data(), old(self).spec_limit(), old(self).spec_pos()),
            ),
    {
        if self.limit - self.position < 2 {
            return Err(self.overrun_error(2));
        }
        let p = self.position;
        let v = self.data[p] as u16 * 0x100 + self.data[p + 1] as u16;
        self.position = p + 2;
        Ok(v)
    }

    /// Read a big-endian u32.
    pub fn read_u32(&mut self) -> (r: Result<u32, DecodeError>)
        requires
            old(self).wf(),
        ensures
            final(self).wf(),
            final(self).same_source(old(self)),
            agrees(
                r,
                final(self).spec_pos(),
                take_u32(old(self).spec_data(), old(self).spec_limit(), old(self).spec_pos()),
            ),
    {
        if self.limit - self.position < 4 {
            return Err(self.overrun_error(4));
        }
        let p = self.position;
        let v = self.data[p] as u32 * 0x100_0000 + self.data[p + 1] as u32 * 0x1_0000
            + self.data[p + 2] as u32 * 0x100 + self.data[p + 3] as u32;
        self.position = p + 4;
        Ok(v)
    }

    /// Read `n` big-endian u16 values, after checking that all of them fit.
    pub fn read_u16_table(&mut self, n: u16) -> (r: Result<Vec<u16>, DecodeError>)
        requires
            old(self).wf(),
        ensures
            final(self).wf(),
            final(self).same_source(old(self)),
            agrees_view(
                r,
                final(self).spec_pos(),
                take_u16_table(old(self).spec_data(), old(self).spec_limit(), old(self).spec_pos(), n as int),
            ),
    {
        let bytes: usize = 2 * n as usize;
        if self.limit - self.position < bytes {
            return Err(self.overrun_error(bytes));
        }
        let ghost start = self.spec_pos();
        let mut out: Vec<u16> = Vec::with_capacity(n as usize);
        let mut i: u16 = 0;
        while i < n
            invariant
                self.wf(),
                self.same_source(old(self)),
                self.spec_data() == old(self).spec_data(),
                start == old(self).spec_pos(),
                start + 2 * n <= self.spec_limit(),
                i <= n,
                self.spec_pos() == start + 2 * i,
                out@ =~= Seq::new(i as nat, |k: int| u16_at(self.spec_data(), start + 2 * k)),
            decreases n - i,
        {
            let x = self.read_u16()?;
            out.push(x);
            i += 1;
        }
        Ok(out)
    }

    /// Read a u16 count followed by that many u16 values.
    pub fn read_u16_list(&mut self) -> (r: Result<Vec<u16>, DecodeError>)
        requires
            old(self).wf(),
        ensures
            final(self).wf(),
            final(self).same_source(old(self)),
            agrees_view(
                r,
                final(self).spec_pos(),
                take_u16_list(old(self).spec_data(), old(self).spec_limit(), old(self).spec_pos()),
            ),
    {
        let n = self.read_u16()?;
        self.read_u16_table(n)
    }
}

} // verus!
