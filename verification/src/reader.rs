use vstd::prelude::*;

use crate::errors::GfError;

verus! {

/// Unsigned big-endian value of the `k` bytes of `s` starting at `pos`.
pub open spec fn be_uint(s: Seq<u8>, pos: int, k: nat) -> int
    decreases k,
{
    if k == 0 {
        0
    } else {
        be_uint(s, pos, (k - 1) as nat) * 256 + s[pos + k - 1]
    }
}

/// A big-endian reading of any width is nonnegative.
pub proof fn lemma_be_uint_nonneg(s: Seq<u8>, pos: int, k: nat)
    ensures
        0 <= be_uint(s, pos, k),
    decreases k,
{
    if k > 0 {
        lemma_be_uint_nonneg(s, pos, (k - 1) as nat);
    }
}

/// Reinterprets an unsigned 32-bit value as the two's-complement signed one.
pub open spec fn sign32(v: int) -> int {
    if v >= 0x8000_0000 {
        v - 0x1_0000_0000
    } else {
        v
    }
}

/// The signed reading of the four big-endian bytes of `s` starting at `pos`.
pub open spec fn be_int4(s: Seq<u8>, pos: int) -> int {
    sign32(be_uint(s, pos, 4))
}

pub uninterp spec fn lossy_utf8(bytes: Seq<u8>) -> Seq<char>;

/// Relies on std's `String::from_utf8_lossy`: permissive text decoding whose
/// result is a function of the input bytes alone (invalid sequences are
/// replaced with a substitute character, never rejected).
#[verifier::external_body]
fn lossy_from_bytes(data: &Vec<u8>, start: usize, end: usize) -> (r: String)
    requires
        start <= end,
        end <= data.len(),
    ensures
        r@ == lossy_utf8(data@.subrange(start as int, end as int)),
{
    String::from_utf8_lossy(&data[start..end]).into_owned()
}

/// An in-memory byte source, read strictly forward.  Every multi-byte read is
/// big-endian; reads of fewer than four bytes are zero-extended (never
/// sign-extended), so only `read4` can produce a negative value.
pub struct ByteReader {
    /// The whole input.
    pub data: Vec<u8>,
    /// Index of the next unread byte; never exceeds `data.len()`.
    pub pos: usize,
}

impl ByteReader {
    /// The cursor has not run past the end of the input.
    pub open spec fn wf(&self) -> bool {
        self.pos <= self.data.len()
    }

    pub fn new(data: Vec<u8>) -> (r: ByteReader)
        ensures
            r.wf(),
            r.data == data,
            r.pos == 0,
    {
        ByteReader { data, pos: 0 }
    }

    /// Reads one byte as a nonnegative value.
    pub fn read1(&mut self) -> (r: Result<i32, GfError>)
        requires
            old(self).wf(),
        ensures
            final(self).wf(),
            final(self).data == old(self).data,
            match r {
                Ok(v) => old(self).pos + 1 <= old(self).data.len()
                    && final(self).pos == old(self).pos + 1
                    && v == old(self).data[old(self).pos as int]
                    && 0 <= v < 256,
                Err(e) => e == GfError::UnexpectedEof
                    && old(self).pos + 1 > old(self).data.len()
                    && *final(self) == *old(self),
            },
    {
        if self.pos < self.data.len() {
            let b = self.data[self.pos];
            self.pos = self.pos + 1;
            Ok(b as i32)
        } else {
            Err(GfError::UnexpectedEof)
        }
    }

    /// Reads two bytes as a nonnegative big-endian value.
    pub fn read2(&mut self) -> (r: Result<i32, GfError>)
        requires
            old(self).wf(),
        ensures
            final(self).wf(),
            final(self).data == old(self).data,
            match r {
                Ok(v) => old(self).pos + 2 <= old(self).data.len()
                    && final(self).pos == old(self).pos + 2
                    && v == be_uint(old(self).data@, old(self).pos as int, 2)
                    && 0 <= v < 0x1_0000,
                Err(e) => e == GfError::UnexpectedEof
                    && old(self).pos + 2 > old(self).data.len(),
            },
    {
        if self.data.len() - self.pos >= 2 {
            let b0 = self.data[self.pos];
            let b1 = self.data[self.pos + 1];
            self.pos = self.pos + 2;
            let v: i32 = b0 as i32 * 256 + b1 as i32;
            proof {
                reveal_with_fuel(be_uint, 3);
            }
            Ok(v)
        } else {
            Err(GfError::UnexpectedEof)
        }
    }

    /// Reads three bytes as a nonnegative big-endian value.
    pub fn read3(&mut self) -> (r: Result<i32, GfError>)
        requires
            old(self).wf(),
        ensures
            final(self).wf(),
            final(self).data == old(self).data,
            match r {
                Ok(v) => old(self).pos + 3 <= old(self).data.len()
                    && final(self).pos == old(self).pos + 3
                    && v == be_uint(old(self).data@, old(self).pos as int, 3)
                    && 0 <= v < 0x100_0000,
                Err(e) => e == GfError::UnexpectedEof
                    && old(self).pos + 3 > old(self).data.len(),
            },
    {
        if self.data.len() - self.pos >= 3 {
            let b0 = self.data[self.pos];
            let b1 = self.data[self.pos + 1];
            let b2 = self.data[self.pos + 2];
            self.pos = self.pos + 3;
            let v: i32 = b0 as i32 * 0x1_0000 + b1 as i32 * 256 + b2 as i32;
            proof {
                reveal_with_fuel(be_uint, 4);
            }
            Ok(v)
        } else {
            Err(GfError::UnexpectedEof)
        }
    }

    /// Reads four bytes as a signed big-endian value.
    pub fn read4(&mut self) -> (r: Result<i32, GfError>)
        requires
            old(self).wf(),
        ensures
            final(self).wf(),
            final(self).data == old(self).data,
            match r {
                Ok(v) => old(self).pos + 4 <= old(self).data.len()
                    && final(self).pos == old(self).pos + 4
                    && v == be_int4(old(self).data@, old(self).pos as int),
                Err(e) => e == GfError::UnexpectedEof
                    && old(self).pos + 4 > old(self).data.len(),
            },
    {
        if self.data.len() - self.pos >= 4 {
            let b0 = self.data[self.pos];
            let b1 = self.data[self.pos + 1];
            let b2 = self.data[self.pos + 2];
            let b3 = self.data[self.pos + 3];
            self.pos = self.pos + 4;
            let u: i64 = b0 as i64 * 0x100_0000 + b1 as i64 * 0x1_0000 + b2 as i64 * 256
                + b3 as i64;
            proof {
                reveal_with_fuel(be_uint, 5);
            }
            if u >= 0x8000_0000 {
                Ok((u - 0x1_0000_0000) as i32)
            } else {
                Ok(u as i32)
            }
        } else {
            Err(GfError::UnexpectedEof)
        }
    }

    /// Reads `size` bytes and decodes them permissively as text.  A negative
    /// `size` can never be satisfied and is reported as a truncated stream.
    pub fn read_string(&mut self, size: i32) -> (r: Result<String, GfError>)
        requires
            old(self).wf(),
        ensures
            final(self).wf(),
            final(self).data == old(self).data,
            match r {
                Ok(s) => 0 <= size
                    && old(self).pos + size <= old(self).data.len()
                    && final(self).pos == old(self).pos + size
                    && s@ == lossy_utf8(
                        old(self).data@.subrange(
                            old(self).pos as int,
                            old(self).pos + size,
                        ),
                    ),
                Err(e) => e == GfError::UnexpectedEof
                    && (size < 0 || old(self).pos + size > old(self).data.len())
                    && *final(self) == *old(self),
            },
    {
        if size < 0 {
            return Err(GfError::UnexpectedEof);
        }
        let n = size as usize;
        if n <= self.data.len() - self.pos {
            let start = self.pos;
            let end = self.pos + n;
            let s = lossy_from_bytes(&self.data, start, end);
            self.pos = end;
            Ok(s)
        } else {
            Err(GfError::UnexpectedEof)
        }
    }

    /// Reads a string prefixed by a one-byte length.
    pub fn read_string1(&mut self) -> (r: Result<String, GfError>)
        requires
            old(self).wf(),
        ensures
            final(self).wf(),
            final(self).data == old(self).data,
            match r {
                Ok(s) => ({
                    let p = old(self).pos as int;
                    let n = old(self).data[p] as int;
                    p + 1 + n <= old(self).data.len()
                        && final(self).pos == p + 1 + n
                        && s@ == lossy_utf8(old(self).data@.subrange(p + 1, p + 1 + n))
                }),
                Err(e) => e == GfError::UnexpectedEof
                    && ({
                        let p = old(self).pos as int;
                        p + 1 > old(self).data.len()
                            || p + 1 + old(self).data[p] > old(self).data.len()
                    }),
            },
    {
        let size = match self.read1() {
            Ok(v) => v,
            Err(e) => return Err(e),
        };
        self.read_string(size)
    }

    /// Reads a string prefixed by a two-byte big-endian length.
    pub fn read_string2(&mut self) -> (r: Result<String, GfError>)
        requires
            old(self).wf(),
        ensures
            final(self).wf(),
            final(self).data == old(self).data,
            match r {
                Ok(s) => ({
                    let p = old(self).pos as int;
                    let n = be_uint(old(self).data@, p, 2);
                    p + 2 + n <= old(self).data.len()
                        && final(self).pos == p + 2 + n
                        && s@ == lossy_utf8(old(self).data@.subrange(p + 2, p + 2 + n))
                }),
                Err(e) => e == GfError::UnexpectedEof
                    && ({
                        let p = old(self).pos as int;
                        p + 2 > old(self).data.len()
                            || p + 2 + be_uint(old(self).data@, p, 2) > old(self).data.len()
                    }),
            },
    {
        let size = match self.read2() {
            Ok(v) => v,
            Err(e) => return Err(e),
        };
        self.read_string(size)
    }

    /// Reads a string prefixed by a three-byte big-endian length.
    pub fn read_string3(&mut self) -> (r: Result<String, GfError>)
        requires
            old(self).wf(),
        ensures
            final(self).wf(),
            final(self).data == old(self).data,
            match r {
                Ok(s) => ({
                    let p = old(self).pos as int;
                    let n = be_uint(old(self).data@, p, 3);
                    p + 3 + n <= old(self).data.len()
                        && final(self).pos == p + 3 + n
                        && s@ == lossy_utf8(old(self).data@.subrange(p + 3, p + 3 + n))
                }),
                Err(e) => e == GfError::UnexpectedEof
                    && ({
                        let p = old(self).pos as int;
                        p + 3 > old(self).data.len()
                            || p + 3 + be_uint(old(self).data@, p, 3) > old(self).data.len()
                    }),
            },
    {
        let size = match self.read3() {
            Ok(v) => v,
            Err(e) => return Err(e),
        };
        self.read_string(size)
    }

    /// Reads a string prefixed by a four-byte big-endian signed length.
    pub fn read_string4(&mut self) -> (r: Result<String, GfError>)
        requires
            old(self).wf(),
        ensures
            final(self).wf(),
            final(self).data == old(self).data,
            match r {
                Ok(s) => ({
                    let p = old(self).pos as int;
                    let n = be_int4(old(self).data@, p);
                    0 <= n
                        && p + 4 + n <= old(self).data.len()
                        && final(self).pos == p + 4 + n
                        && s@ == lossy_utf8(old(self).data@.subrange(p + 4, p + 4 + n))
                }),
                Err(e) => e == GfError::UnexpectedEof
                    && ({
                        let p = old(self).pos as int;
                        let n = be_int4(old(self).data@, p);
                        p + 4 > old(self).data.len()
                            || n < 0
                            || p + 4 + n > old(self).data.len()
                    }),
            },
    {
        let size = match self.read4() {
            Ok(v) => v,
            Err(e) => return Err(e),
        };
        self.read_string(size)
    }

    /// Reads the raw numerator of a fixed-point design value; the real number
    /// it denotes is this value divided by 2^20.
    pub fn read_fix_word(&mut self) -> (r: Result<i32, GfError>)
        requires
            old(self).wf(),
        ensures
            final(self).wf(),
            final(self).data == old(self).data,
            match r {
                Ok(v) => old(self).pos + 4 <= old(self).data.len()
                    && final(self).pos == old(self).pos + 4
                    && v == be_int4(old(self).data@, old(self).pos as int),
                Err(e) => e == GfError::UnexpectedEof
                    && old(self).pos + 4 > old(self).data.len(),
            },
    {
        self.read4()
    }

    /// Reads the raw numerator of a fixed-point density value; the real number
    /// it denotes is this value divided by 2^16.
    pub fn read_scaled_int(&mut self) -> (r: Result<i32, GfError>)
        requires
            old(self).wf(),
        ensures
            final(self).wf(),
            final(self).data == old(self).data,
            match r {
                Ok(v) => old(self).pos + 4 <= old(self).data.len()
                    && final(self).pos == old(self).pos + 4
                    && v == be_int4(old(self).data@, old(self).pos as int),
                Err(e) => e == GfError::UnexpectedEof
                    && old(self).pos + 4 > old(self).data.len(),
            },
    {
        self.read4()
    }
}

} // verus!
