//! Execution faults. Every fault is fatal to the running frame and is
//! surfaced to the caller of `execute`; there is no local recovery.
use vstd::prelude::*;

use crate::class::constant_pool::LookupError;
use crate::isa::opcode::Opcode;
use crate::vm::types::Type;

verus! {

#[derive(Clone, Debug, PartialEq)]
pub enum ExecutionError {
    /// A code byte outside JVMS Table 6.5, carrying the byte.
    DecodeError(u8),
    /// A push would have exceeded the operand stack's maximum depth.
    StackOverflow,
    /// A pop was attempted on an empty operand stack.
    StackUnderflow,
    /// The program counter ran past the end of the code, carrying the
    /// counter's value.
    EndOfCode(u32),
    /// A branch target outside the code bounds, carrying the target and
    /// the code length.
    JumpOutOfBounds(i64, usize),
    /// A return instruction did not match the frame's declared return
    /// type: the declared tag, then the tag the instruction yields.
    BadReturnType(Type, Type),
    /// Integer division or remainder by zero.
    DivisionByZero,
    /// An opcode that decodes but is not implemented by this
    /// interpreter core, carrying the opcode.
    UnimplementedOpcode(Opcode),
    /// A failed local-variable access.
    Local(LookupError),
    /// The interpreter's step bound of 2^64 instructions ran out
    /// before a return or fault.
    StepLimitExceeded,
}

} // verus!
