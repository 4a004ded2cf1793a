//! The operand stack: a byte-granular stack with a maximum depth fixed
//! at frame construction. Fixed-width values are pushed as big-endian
//! bytes and pops reassemble them big-endian, so the top of a 32-bit
//! value is its least significant byte.
use vstd::prelude::*;

use crate::vm::errors::ExecutionError;

verus! {

/// The big-endian byte image of a 32-bit value.
pub open spec fn be32(v: u32) -> Seq<u8> {
    seq![(v >> 24) as u8, (v >> 16) as u8, (v >> 8) as u8, v as u8]
}

/// The big-endian byte image of a 64-bit value.
pub open spec fn be64(v: u64) -> Seq<u8> {
    seq![
        (v >> 56) as u8,
        (v >> 48) as u8,
        (v >> 40) as u8,
        (v >> 32) as u8,
        (v >> 24) as u8,
        (v >> 16) as u8,
        (v >> 8) as u8,
        v as u8,
    ]
}

/// The 32-bit value read from four big-endian bytes.
pub open spec fn u32_of_be(b0: u8, b1: u8, b2: u8, b3: u8) -> u32 {
    ((b0 as u32) << 24) | ((b1 as u32) << 16) | ((b2 as u32) << 8) | (b3 as u32)
}

/// The 64-bit value read from eight big-endian bytes.
pub open spec fn u64_of_be(b0: u8, b1: u8, b2: u8, b3: u8, b4: u8, b5: u8, b6: u8, b7: u8) -> u64 {
    ((b0 as u64) << 56) | ((b1 as u64) << 48) | ((b2 as u64) << 40) | ((b3 as u64) << 32)
        | ((b4 as u64) << 24) | ((b5 as u64) << 16) | ((b6 as u64) << 8) | (b7 as u64)
}

/// The value at the top of a stack whose last four bytes are a
/// big-endian 32-bit value.
pub open spec fn stack_top32(s: Seq<u8>) -> u32 {
    u32_of_be(s[s.len() - 4], s[s.len() - 3], s[s.len() - 2], s[s.len() - 1])
}

/// The value at the top of a stack whose last eight bytes are a
/// big-endian 64-bit value.
pub open spec fn stack_top64(s: Seq<u8>) -> u64 {
    u64_of_be(
        s[s.len() - 8],
        s[s.len() - 7],
        s[s.len() - 6],
        s[s.len() - 5],
        s[s.len() - 4],
        s[s.len() - 3],
        s[s.len() - 2],
        s[s.len() - 1],
    )
}

/// A stack without its top four bytes.
pub open spec fn stack_drop32(s: Seq<u8>) -> Seq<u8> {
    s.subrange(0, s.len() - 4)
}

/// A stack without its top eight bytes.
pub open spec fn stack_drop64(s: Seq<u8>) -> Seq<u8> {
    s.subrange(0, s.len() - 8)
}

/// Reading back the big-endian image of a 32-bit value yields the
/// value.
pub proof fn lemma_be32_roundtrip(v: u32)
    ensures
        stack_top32(be32(v)) == v,
        be32(v).len() == 4,
{
    assert(((((v >> 24) as u8) as u32) << 24) | ((((v >> 16) as u8) as u32) << 16)
        | ((((v >> 8) as u8) as u32) << 8) | ((v as u8) as u32) == v) by (bit_vector);
}

/// Reading back the big-endian image of a 64-bit value yields the
/// value.
pub proof fn lemma_be64_roundtrip(v: u64)
    ensures
        stack_top64(be64(v)) == v,
        be64(v).len() == 8,
{
    assert(((((v >> 56) as u8) as u64) << 56) | ((((v >> 48) as u8) as u64) << 48)
        | ((((v >> 40) as u8) as u64) << 40) | ((((v >> 32) as u8) as u64) << 32)
        | ((((v >> 24) as u8) as u64) << 24) | ((((v >> 16) as u8) as u64) << 16)
        | ((((v >> 8) as u8) as u64) << 8) | ((v as u8) as u64) == v) by (bit_vector);
}

/// The top four bytes of a stack are the big-endian image of the
/// value they hold.
pub proof fn lemma_top32_bytes(s: Seq<u8>)
    requires
        s.len() >= 4,
    ensures
        be32(stack_top32(s)) =~= s.subrange(s.len() - 4, s.len() as int),
{
    let b0 = s[s.len() - 4];
    let b1 = s[s.len() - 3];
    let b2 = s[s.len() - 2];
    let b3 = s[s.len() - 1];
    assert((u32_of_be(b0, b1, b2, b3) >> 24) as u8 == b0 && (u32_of_be(b0, b1, b2, b3) >> 16) as u8
        == b1 && (u32_of_be(b0, b1, b2, b3) >> 8) as u8 == b2 && u32_of_be(b0, b1, b2, b3) as u8
        == b3) by (bit_vector);
}

/// An operand stack of bytes with a declared maximum depth.
#[derive(Debug)]
pub struct OperandStack {
    pub max_depth: usize,
    pub stack: Vec<u8>,
}

impl OperandStack {
    /// An empty stack with no effective depth bound.
    pub fn new() -> (s: Self)
        ensures
            s.max_depth == usize::MAX,
            s.stack@ == Seq::<u8>::empty(),
    {
        OperandStack { max_depth: usize::MAX, stack: Vec::new() }
    }

    /// Appends the given bytes, or fails with `StackOverflow`, leaving
    /// the stack unchanged, exactly when the resulting depth would
    /// exceed the maximum.
    pub fn push(&mut self, bytes: &[u8]) -> (r: Result<(), ExecutionError>)
        ensures
            final(self).max_depth == old(self).max_depth,
            match r {
                Ok(()) => {
                    &&& old(self).stack@.len() + bytes@.len() <= old(self).max_depth
                    &&& final(self).stack@ == old(self).stack@ + bytes@
                },
                Err(e) => {
                    &&& e == ExecutionError::StackOverflow
                    &&& old(self).stack@.len() + bytes@.len() > old(self).max_depth
                    &&& final(self).stack@ == old(self).stack@
                },
            },
    {
        if self.stack.len() > self.max_depth || bytes.len() > self.max_depth - self.stack.len() {
            return Err(ExecutionError::StackOverflow);
        }
        let mut i: usize = 0;
        while i < bytes.len()
            invariant
                i <= bytes@.len(),
                self.stack@ == old(self).stack@ + bytes@.subrange(0, i as int),
                self.max_depth == old(self).max_depth,
            decreases bytes@.len() - i,
        {
            self.stack.push(bytes[i]);
            i = i + 1;
            proof {
                assert(self.stack@ =~= old(self).stack@ + bytes@.subrange(0, i as int));
            }
        }
        proof {
            assert(old(self).stack@ + bytes@.subrange(0, bytes@.len() as int) =~= old(self).stack@ + bytes@);
        }
        Ok(())
    }

    /// Removes and returns the top byte, or fails with
    /// `StackUnderflow` exactly when the stack is empty.
    pub fn pop(&mut self) -> (r: Result<u8, ExecutionError>)
        ensures
            final(self).max_depth == old(self).max_depth,
            match r {
                Ok(b) => {
                    &&& old(self).stack@.len() > 0
                    &&& b == old(self).stack@.last()
                    &&& final(self).stack@ == old(self).stack@.drop_last()
                },
                Err(e) => {
                    &&& e == ExecutionError::StackUnderflow
                    &&& old(self).stack@.len() == 0
                    &&& final(self).stack@ == old(self).stack@
                },
            },
    {
        match self.stack.pop() {
            Some(b) => Ok(b),
            None => Err(ExecutionError::StackUnderflow),
        }
    }

    /// Pushes a 32-bit value as four big-endian bytes, atomically.
    pub fn push_u32(&mut self, v: u32) -> (r: Result<(), ExecutionError>)
        ensures
            final(self).max_depth == old(self).max_depth,
            match r {
                Ok(()) => {
                    &&& old(self).stack@.len() + 4 <= old(self).max_depth
                    &&& final(self).stack@ == old(self).stack@ + be32(v)
                },
                Err(e) => {
                    &&& e == ExecutionError::StackOverflow
                    &&& old(self).stack@.len() + 4 > old(self).max_depth
                    &&& final(self).stack@ == old(self).stack@
                },
            },
    {
        if self.stack.len() > self.max_depth || 4 > self.max_depth - self.stack.len() {
            return Err(ExecutionError::StackOverflow);
        }
        self.stack.push(#[verifier::truncate] ((v >> 24) as u8));
        self.stack.push(#[verifier::truncate] ((v >> 16) as u8));
        self.stack.push(#[verifier::truncate] ((v >> 8) as u8));
        self.stack.push(#[verifier::truncate] (v as u8));
        proof {
            assert(self.stack@ =~= old(self).stack@ + be32(v));
        }
        Ok(())
    }

    /// Pushes a 64-bit value as eight big-endian bytes, atomically.
    pub fn push_u64(&mut self, v: u64) -> (r: Result<(), ExecutionError>)
        ensures
            final(self).max_depth == old(self).max_depth,
            match r {
                Ok(()) => {
                    &&& old(self).stack@.len() + 8 <= old(self).max_depth
                    &&& final(self).stack@ == old(self).stack@ + be64(v)
                },
                Err(e) => {
                    &&& e == ExecutionError::StackOverflow
                    &&& old(self).stack@.len() + 8 > old(self).max_depth
                    &&& final(self).stack@ == old(self).stack@
                },
            },
    {
        if self.stack.len() > self.max_depth || 8 > self.max_depth - self.stack.len() {
            return Err(ExecutionError::StackOverflow);
        }
        self.stack.push(#[verifier::truncate] ((v >> 56) as u8));
        self.stack.push(#[verifier::truncate] ((v >> 48) as u8));
        self.stack.push(#[verifier::truncate] ((v >> 40) as u8));
        self.stack.push(#[verifier::truncate] ((v >> 32) as u8));
        self.stack.push(#[verifier::truncate] ((v >> 24) as u8));
        self.stack.push(#[verifier::truncate] ((v >> 16) as u8));
        self.stack.push(#[verifier::truncate] ((v >> 8) as u8));
        self.stack.push(#[verifier::truncate] (v as u8));
        proof {
            assert(self.stack@ =~= old(self).stack@ + be64(v));
        }
        Ok(())
    }

    /// Pops four bytes and reassembles them as a big-endian 32-bit
    /// value, atomically: on underflow nothing is removed.
    pub fn pop_u32(&mut self) -> (r: Result<u32, ExecutionError>)
        ensures
            final(self).max_depth == old(self).max_depth,
            match r {
                Ok(v) => {
                    &&& old(self).stack@.len() >= 4
                    &&& v == stack_top32(old(self).stack@)
                    &&& final(self).stack@ == stack_drop32(old(self).stack@)
                },
                Err(e) => {
                    &&& e == ExecutionError::StackUnderflow
                    &&& old(self).stack@.len() < 4
                    &&& final(self).stack@ == old(self).stack@
                },
            },
    {
        if self.stack.len() < 4 {
            return Err(ExecutionError::StackUnderflow);
        }
        let b3 = self.stack.pop().unwrap();
        let b2 = self.stack.pop().unwrap();
        let b1 = self.stack.pop().unwrap();
        let b0 = self.stack.pop().unwrap();
        proof {
            assert(self.stack@ =~= stack_drop32(old(self).stack@));
        }
        Ok(((b0 as u32) << 24) | ((b1 as u32) << 16) | ((b2 as u32) << 8) | (b3 as u32))
    }

    /// Pops eight bytes and reassembles them as a big-endian 64-bit
    /// value, atomically: on underflow nothing is removed.
    pub fn pop_u64(&mut self) -> (r: Result<u64, ExecutionError>)
        ensures
            final(self).max_depth == old(self).max_depth,
            match r {
                Ok(v) => {
                    &&& old(self).stack@.len() >= 8
                    &&& v == stack_top64(old(self).stack@)
                    &&& final(self).stack@ == stack_drop64(old(self).stack@)
                },
                Err(e) => {
                    &&& e == ExecutionError::StackUnderflow
                    &&& old(self).stack@.len() < 8
                    &&& final(self).stack@ == old(self).stack@
                },
            },
    {
        if self.stack.len() < 8 {
            return Err(ExecutionError::StackUnderflow);
        }
        let b7 = self.stack.pop().unwrap();
        let b6 = self.stack.pop().unwrap();
        let b5 = self.stack.pop().unwrap();
        let b4 = self.stack.pop().unwrap();
        let b3 = self.stack.pop().unwrap();
        let b2 = self.stack.pop().unwrap();
        let b1 = self.stack.pop().unwrap();
        let b0 = self.stack.pop().unwrap();
        proof {
            assert(self.stack@ =~= stack_drop64(old(self).stack@));
        }
        Ok(
            ((b0 as u64) << 56) | ((b1 as u64) << 48) | ((b2 as u64) << 40) | ((b3 as u64) << 32)
                | ((b4 as u64) << 24) | ((b5 as u64) << 16) | ((b6 as u64) << 8) | (b7 as u64),
        )
    }
}

} // verus!
