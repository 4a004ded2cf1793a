//! A big-endian byte reader over a class-file image, and the faults a
//! parse can report.
use vstd::prelude::*;

use crate::class::constant_pool::LookupError;
use crate::class::modified_utf8::ModifiedUtf8Error;

verus! {

/// Why a class file failed to parse.
#[derive(Clone, Debug, PartialEq)]
pub enum ParseError {
    /// The first four bytes were not 0xCAFEBABE, carrying them.
    BadMagic(u32),
    /// The stream ended inside a structure.
    Truncated,
    /// A constant pool entry tag outside JVMS Table 4.4-B.
    BadConstantPoolTag(u8),
    /// A declared count or length does not fit the structure that
    /// follows it: a long or double entry runs past the constant
    /// pool's declared slot count, or an attribute's payload does not
    /// span its declared length.
    DeclaredLengthOverflow,
    /// A verification type tag outside JVMS 4.7.4.
    BadVerificationTypeTag(u8),
    /// A stack map frame tag in the reserved range of JVMS 4.7.4.
    BadStackMapFrameTag(u8),
    /// An attribute name or class index did not resolve through the
    /// constant pool.
    Pool(LookupError),
    /// An attribute name was not modified UTF-8.
    BadName(ModifiedUtf8Error),
}

/// The 16-bit big-endian value at a byte offset.
pub open spec fn be16_at(bytes: Seq<u8>, pos: int) -> u16 {
    ((bytes[pos] as u16) << 8) | (bytes[pos + 1] as u16)
}

/// The 32-bit big-endian value at a byte offset.
pub open spec fn be32_at(bytes: Seq<u8>, pos: int) -> u32 {
    ((bytes[pos] as u32) << 24) | ((bytes[pos + 1] as u32) << 16) | ((bytes[pos + 2] as u32) << 8)
        | (bytes[pos + 3] as u32)
}

/// The 64-bit big-endian value at a byte offset.
pub open spec fn be64_at(bytes: Seq<u8>, pos: int) -> u64 {
    ((be32_at(bytes, pos) as u64) << 32) | (be32_at(bytes, pos + 4) as u64)
}

/// A reader over the class-file bytes, keeping its position.
pub struct ByteReader<'a> {
    pub bytes: &'a [u8],
    pub pos: usize,
}

impl<'a> ByteReader<'a> {
    /// A reader at the start of the given bytes.
    pub fn new(bytes: &'a [u8]) -> (r: Self)
        ensures
            r.bytes@ == bytes@,
            r.pos == 0,
    {
        ByteReader { bytes, pos: 0 }
    }

    /// Reads one byte, or fails with `Truncated`, leaving the
    /// position alone, exactly when none is left.
    pub fn read_u8(&mut self) -> (r: Result<u8, ParseError>)
        ensures
            final(self).bytes@ == old(self).bytes@,
            match r {
                Ok(b) => {
                    &&& old(self).pos + 1 <= old(self).bytes@.len()
                    &&& b == old(self).bytes@[old(self).pos as int]
                    &&& final(self).pos == old(self).pos + 1
                },
                Err(e) => {
                    &&& e == ParseError::Truncated
                    &&& old(self).pos + 1 > old(self).bytes@.len()
                    &&& final(self).pos == old(self).pos
                },
            },
    {
        if self.pos < self.bytes.len() {
            let b = self.bytes[self.pos];
            self.pos = self.pos + 1;
            Ok(b)
        } else {
            Err(ParseError::Truncated)
        }
    }

    /// Reads a big-endian 16-bit value.
    pub fn read_u16(&mut self) -> (r: Result<u16, ParseError>)
        ensures
            final(self).bytes@ == old(self).bytes@,
            match r {
                Ok(v) => {
                    &&& old(self).pos + 2 <= old(self).bytes@.len()
                    &&& v == be16_at(old(self).bytes@, old(self).pos as int)
                    &&& final(self).pos == old(self).pos + 2
                },
                Err(e) => {
                    &&& e == ParseError::Truncated
                    &&& old(self).pos + 2 > old(self).bytes@.len()
                    &&& final(self).pos == old(self).pos
                },
            },
    {
        if self.bytes.len() >= 2 && self.pos <= self.bytes.len() - 2 {
            let b0 = self.bytes[self.pos];
            let b1 = self.bytes[self.pos + 1];
            self.pos = self.pos + 2;
            Ok(((b0 as u16) << 8) | (b1 as u16))
        } else {
            Err(ParseError::Truncated)
        }
    }

    /// Reads a big-endian 32-bit value.
    pub fn read_u32(&mut self) -> (r: Result<u32, ParseError>)
        ensures
            final(self).bytes@ == old(self).bytes@,
            match r {
                Ok(v) => {
                    &&& old(self).pos + 4 <= old(self).bytes@.len()
                    &&& v == be32_at(old(self).bytes@, old(self).pos as int)
                    &&& final(self).pos == old(self).pos + 4
                },
                Err(e) => {
                    &&& e == ParseError::Truncated
                    &&& old(self).pos + 4 > old(self).bytes@.len()
                    &&& final(self).pos == old(self).pos
                },
            },
    {
        if self.bytes.len() >= 4 && self.pos <= self.bytes.len() - 4 {
            let b0 = self.bytes[self.pos];
            let b1 = self.bytes[self.pos + 1];
            let b2 = self.bytes[self.pos + 2];
            let b3 = self.bytes[self.pos + 3];
            self.pos = self.pos + 4;
            Ok(((b0 as u32) << 24) | ((b1 as u32) << 16) | ((b2 as u32) << 8) | (b3 as u32))
        } else {
            Err(ParseError::Truncated)
        }
    }

    /// Reads a big-endian 64-bit value.
    pub fn read_u64(&mut self) -> (r: Result<u64, ParseError>)
        ensures
            final(self).bytes@ == old(self).bytes@,
            match r {
                Ok(v) => {
                    &&& old(self).pos + 8 <= old(self).bytes@.len()
                    &&& v == be64_at(old(self).bytes@, old(self).pos as int)
                    &&& final(self).pos == old(self).pos + 8
                },
                Err(e) => {
                    &&& e == ParseError::Truncated
                    &&& old(self).pos + 8 > old(self).bytes@.len()
                    &&& final(self).pos == old(self).pos
                },
            },
    {
        if self.bytes.len() >= 8 && self.pos <= self.bytes.len() - 8 {
            let hi = self.read_u32().unwrap();
            let lo = self.read_u32().unwrap();
            Ok(((hi as u64) << 32) | (lo as u64))
        } else {
            Err(ParseError::Truncated)
        }
    }

    /// Reads `n` bytes into a vector.
    pub fn read_bytes(&mut self, n: usize) -> (r: Result<Vec<u8>, ParseError>)
        ensures
            final(self).bytes@ == old(self).bytes@,
            match r {
                Ok(v) => {
                    &&& old(self).pos + n <= old(self).bytes@.len()
                    &&& v@ == old(self).bytes@.subrange(
                        old(self).pos as int,
                        old(self).pos + n,
                    )
                    &&& final(self).pos == old(self).pos + n
                },
                Err(e) => {
                    &&& e == ParseError::Truncated
                    &&& old(self).pos + n > old(self).bytes@.len()
                    &&& final(self).pos == old(self).pos
                },
            },
    {
        if self.bytes.len() >= n && self.pos <= self.bytes.len() - n {
            let blen = self.bytes.len();
            let mut v: Vec<u8> = Vec::new();
            let mut i: usize = 0;
            while i < n
                invariant
                    i <= n,
                    self.bytes@.len() == blen,
                    self.pos + n <= self.bytes@.len(),
                    v@ == self.bytes@.subrange(self.pos as int, self.pos + i),
                    self.bytes@ == old(self).bytes@,
                    self.pos == old(self).pos,
                decreases n - i,
            {
                v.push(self.bytes[self.pos + i]);
                i = i + 1;
                proof {
                    assert(v@ =~= self.bytes@.subrange(self.pos as int, self.pos + i));
                }
            }
            self.pos = self.pos + n;
            Ok(v)
        } else {
            Err(ParseError::Truncated)
        }
    }

    /// Skips `n` bytes.
    pub fn skip(&mut self, n: usize) -> (r: Result<(), ParseError>)
        ensures
            final(self).bytes@ == old(self).bytes@,
            match r {
                Ok(()) => {
                    &&& old(self).pos + n <= old(self).bytes@.len()
                    &&& final(self).pos == old(self).pos + n
                },
                Err(e) => {
                    &&& e == ParseError::Truncated
                    &&& old(self).pos + n > old(self).bytes@.len()
                    &&& final(self).pos == old(self).pos
                },
            },
    {
        if self.bytes.len() >= n && self.pos <= self.bytes.len() - n {
            self.pos = self.pos + n;
            Ok(())
        } else {
            Err(ParseError::Truncated)
        }
    }
}

} // verus!
