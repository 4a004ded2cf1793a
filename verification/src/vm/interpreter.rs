//! The fetch/decode/execute interpreter. It executes one activation
//! frame until a return instruction halts it with a typed value or a
//! fault halts it with an error.
//!
//! Floating-point arithmetic and value conversions are the one thing
//! the interpreter does not compute itself: on such an opcode it pops
//! the operands, returns a [`FloatRequest`] carrying their bit
//! patterns, and waits; the caller computes the IEEE-754 result and
//! hands its bits back through [`Interpreter::resume_float`], which
//! pushes them and continues the loop. Everything else — integer and
//! long arithmetic, NaN-aware comparison of float bit patterns,
//! branches, loads, stores and returns — is executed and verified
//! here.
use vstd::prelude::*;
use vstd::wrapping::{i32_specs, i64_specs};

use crate::class::constant_pool::LookupError;
use crate::isa::opcode::{opcode_byte, Opcode};
use crate::vm::errors::ExecutionError;
use crate::vm::fp::{double_cmp, float_cmp};
use crate::vm::frame::StackFrame;
use crate::vm::local::{local_at, locals_set};
use crate::vm::operand_stack::{
    be32, be64, lemma_top32_bytes, stack_drop32, stack_drop64, stack_top32, stack_top64,
};
use crate::vm::types::{type_eq, Double, Float, Int, Long, Null, Type, Variable};

verus! {

/// A request to the caller: compute one floating-point operation on
/// the given operand bit patterns and resume with the result's bits.
/// For a 32-bit operand the bits stand zero-extended in the low word;
/// `b` is meaningful only for the binary arithmetic opcodes. The
/// result is `a OP b`, where `a` is value 1, the operand pushed
/// first, and `b` is value 2, the one that was on top of the stack.
#[derive(Clone, Copy, Debug, PartialEq)]
pub struct FloatRequest {
    pub op: Opcode,
    pub a: u64,
    pub b: u64,
}

/// How a call into the interpreter came back: a return instruction
/// halted the frame with a value, or the caller must compute a
/// floating-point result and resume.
#[derive(Debug, PartialEq)]
pub enum Outcome {
    Returned(Variable),
    FloatRequest(FloatRequest),
}

/// The opcodes that the interpreter hands to the caller as
/// floating-point requests.
pub open spec fn is_float_request_op(op: Opcode) -> bool {
    ||| op is FAdd
    ||| op is FSub
    ||| op is FMul
    ||| op is FDiv
    ||| op is FRem
    ||| op is DAdd
    ||| op is DSub
    ||| op is DMul
    ||| op is DDiv
    ||| op is DRem
    ||| op is I2F
    ||| op is I2D
    ||| op is L2F
    ||| op is L2D
    ||| op is F2I
    ||| op is F2L
    ||| op is F2D
    ||| op is D2I
    ||| op is D2L
    ||| op is D2F
}

/// The requests whose result is a category-2 value, pushed as eight
/// bytes; all others push four.
pub open spec fn float_result_wide(op: Opcode) -> bool {
    ||| op is DAdd
    ||| op is DSub
    ||| op is DMul
    ||| op is DDiv
    ||| op is DRem
    ||| op is I2D
    ||| op is L2D
    ||| op is F2D
    ||| op is F2L
    ||| op is D2L
}

/// A binary integer arithmetic, logic or shift operation.
#[derive(Clone, Copy, Debug, PartialEq, Eq, Structural)]
pub enum BinOp {
    Add,
    Sub,
    Mul,
    Div,
    Rem,
    And,
    Or,
    Xor,
    Shl,
    Shr,
    Ushr,
}

/// A comparison against zero or between two ints, for the conditional
/// branch families.
#[derive(Clone, Copy, Debug, PartialEq, Eq, Structural)]
pub enum Cond {
    Eq,
    Ne,
    Lt,
    Ge,
    Gt,
    Le,
}

/// Whether the branch predicate holds of `a` against `b`.
pub open spec fn cond_holds(c: Cond, a: i32, b: i32) -> bool {
    match c {
        Cond::Eq => a == b,
        Cond::Ne => a != b,
        Cond::Lt => a < b,
        Cond::Ge => a >= b,
        Cond::Gt => a > b,
        Cond::Le => a <= b,
    }
}

/// The signed 32-bit value carried by a bit pattern.
pub open spec fn i32_of_bits(b: u32) -> i32 {
    b as i32
}

/// The bit pattern of a signed 32-bit value.
pub open spec fn bits_of_i32(v: i32) -> u32 {
    v as u32
}

/// The signed 64-bit value carried by a bit pattern.
pub open spec fn i64_of_bits(b: u64) -> i64 {
    b as i64
}

/// The bit pattern of a signed 64-bit value.
pub open spec fn bits_of_i64(v: i64) -> u64 {
    v as u64
}

/// The quotient of JVM integer division (JVMS 6.5, idiv and ldiv for
/// the 64-bit twin): truncated towards zero, wrapping on the one
/// overflowing pair, the minimum value divided by minus one.
pub open spec fn jvm_div_int(a: int, b: int, min: int) -> int
    recommends
        b != 0,
{
    let q = if (a >= 0) == (b >= 0) {
        abs_int(a) / abs_int(b)
    } else {
        -(abs_int(a) / abs_int(b))
    };
    if a == min && b == -1 {
        min
    } else {
        q
    }
}

/// The remainder of JVM integer division: its sign follows the
/// dividend, and dividend equals quotient times divisor plus it.
pub open spec fn jvm_rem_int(a: int, b: int, min: int) -> int
    recommends
        b != 0,
{
    if a == min && b == -1 {
        0
    } else if a >= 0 {
        abs_int(a) % abs_int(b)
    } else {
        -(abs_int(a) % abs_int(b))
    }
}

/// The absolute value of an integer.
pub open spec fn abs_int(x: int) -> int {
    if x >= 0 {
        x
    } else {
        -x
    }
}

/// True when a binary operation is defined on its operands: division
/// and remainder need a non-zero divisor.
pub open spec fn int_bin_defined(op: BinOp, b: i32) -> bool {
    !((op is Div || op is Rem) && b == 0)
}

/// The same, for 64-bit operands.
pub open spec fn long_bin_defined(op: BinOp, b: i64) -> bool {
    !((op is Div || op is Rem) && b == 0)
}

/// The result of a 32-bit binary operation (JVMS 6.5): two's
/// complement wraparound arithmetic, bitwise logic, and shifts whose
/// count is the low five bits of `b`. `a` is value 1, the operand
/// pushed first; `b` is value 2, the one that was on top of the
/// stack, and the divisor.
pub open spec fn int_bin(op: BinOp, a: i32, b: i32) -> i32
    recommends
        int_bin_defined(op, b),
{
    match op {
        BinOp::Add => i32_specs::wrapping_add(a, b),
        BinOp::Sub => i32_specs::wrapping_sub(a, b),
        BinOp::Mul => i32_specs::wrapping_mul(a, b),
        BinOp::Div => i32_specs::signed_crop(jvm_div_int(a as int, b as int, i32::MIN as int)),
        BinOp::Rem => i32_specs::signed_crop(jvm_rem_int(a as int, b as int, i32::MIN as int)),
        BinOp::And => a & b,
        BinOp::Or => a | b,
        BinOp::Xor => a ^ b,
        BinOp::Shl => i32_specs::wrapping_shl(a, (bits_of_i32(b) & 0x1F) as u32),
        BinOp::Shr => i32_specs::wrapping_shr(a, (bits_of_i32(b) & 0x1F) as u32),
        BinOp::Ushr => i32_of_bits(bits_of_i32(a) >> ((bits_of_i32(b) & 0x1F) as u32)),
    }
}

/// The result of a 64-bit binary operation: as [`int_bin`], with
/// shift counts taken from the low six bits of the second operand.
pub open spec fn long_bin(op: BinOp, a: i64, b: i64) -> i64
    recommends
        long_bin_defined(op, b),
{
    match op {
        BinOp::Add => i64_specs::wrapping_add(a, b),
        BinOp::Sub => i64_specs::wrapping_sub(a, b),
        BinOp::Mul => i64_specs::wrapping_mul(a, b),
        BinOp::Div => i64_specs::signed_crop(jvm_div_int(a as int, b as int, i64::MIN as int)),
        BinOp::Rem => i64_specs::signed_crop(jvm_rem_int(a as int, b as int, i64::MIN as int)),
        BinOp::And => a & b,
        BinOp::Or => a | b,
        BinOp::Xor => a ^ b,
        BinOp::Shl => i64_specs::wrapping_shl(a, (bits_of_i64(b) & 0x3F) as u32),
        BinOp::Shr => i64_specs::wrapping_shr(a, (bits_of_i64(b) & 0x3F) as u32),
        BinOp::Ushr => i64_of_bits(bits_of_i64(a) >> (((bits_of_i64(b) & 0x3F) as u64) as u32)),
    }
}

/// Whether a returned value's category matches the declared return
/// type tag of the frame that yielded it.
pub open spec fn variable_matches_return(v: Variable, t: Type) -> bool {
    match v {
        Variable::Int(_) => t is I,
        Variable::Long(_) => t is J,
        Variable::Float(_) => t is F,
        Variable::Double(_) => t is D,
        Variable::Null(_) => t is V,
        _ => false,
    }
}

/// Everything of two frames agrees but the operand stack's contents.
pub open spec fn frame_except_stack(a: StackFrame, b: StackFrame) -> bool {
    &&& a.invoker == b.invoker
    &&& a.pc == b.pc
    &&& a.locals == b.locals
    &&& a.constant_pool == b.constant_pool
    &&& a.code == b.code
    &&& a.return_type == b.return_type
    &&& a.operand_stack.max_depth == b.operand_stack.max_depth
}

/// Everything of two frames agrees but the operand stack's contents
/// and the program counter.
pub open spec fn frame_except_stack_pc(a: StackFrame, b: StackFrame) -> bool {
    &&& a.invoker == b.invoker
    &&& a.locals == b.locals
    &&& a.constant_pool == b.constant_pool
    &&& a.code == b.code
    &&& a.return_type == b.return_type
    &&& a.operand_stack.max_depth == b.operand_stack.max_depth
}

/// Everything of two frames agrees but the local variable table.
pub open spec fn frame_except_locals(a: StackFrame, b: StackFrame) -> bool {
    &&& a.invoker == b.invoker
    &&& a.pc == b.pc
    &&& a.constant_pool == b.constant_pool
    &&& a.code == b.code
    &&& a.return_type == b.return_type
    &&& a.operand_stack == b.operand_stack
}

/// The interpreter: one activation frame and, between a float request
/// and its resumption, the request it is waiting on.
#[derive(Debug)]
pub struct Interpreter {
    pub frame: StackFrame,
    pub pending: Option<FloatRequest>,
}

impl Interpreter {
    /// An interpreter over the given frame, with nothing pending.
    pub fn new(frame: StackFrame) -> (r: Interpreter)
        ensures
            r.frame == frame,
            r.pending is None,
    {
        Interpreter { frame, pending: None }
    }

    /// Fetches the code byte at the program counter and advances the
    /// counter, or fails with `EndOfCode` exactly when the counter is
    /// past the end of the code.
    pub fn fetch(&mut self) -> (r: Result<u8, ExecutionError>)
        requires
            old(self).frame.code@.len() <= 0xFFFF_FFFF,
        ensures
            frame_except_stack_pc(final(self).frame, old(self).frame),
            final(self).frame.operand_stack == old(self).frame.operand_stack,
            final(self).pending == old(self).pending,
            match r {
                Ok(b) => {
                    &&& (old(self).frame.pc as int) < old(self).frame.code@.len()
                    &&& b == old(self).frame.code@[old(self).frame.pc as int]
                    &&& final(self).frame.pc == old(self).frame.pc + 1
                },
                Err(e) => {
                    &&& e == ExecutionError::EndOfCode(old(self).frame.pc)
                    &&& (old(self).frame.pc as int) >= old(self).frame.code@.len()
                    &&& final(self).frame.pc == old(self).frame.pc
                },
            },
    {
        if (self.frame.pc as usize) < self.frame.code.len() {
            let byte = self.frame.code[self.frame.pc as usize];
            self.frame.pc = self.frame.pc + 1;
            Ok(byte)
        } else {
            Err(ExecutionError::EndOfCode(self.frame.pc))
        }
    }

    /// Maps a fetched byte to its opcode via the exhaustive table of
    /// JVMS Table 6.5; unknown bytes fail with `DecodeError`.
    pub fn decode(&mut self, byte: u8) -> (r: Result<Opcode, ExecutionError>)
        ensures
            *final(self) == *old(self),
            match r {
                Ok(op) => opcode_byte(op) == byte,
                Err(e) => e == ExecutionError::DecodeError(byte)
                    && !crate::isa::opcode::is_opcode_byte(byte),
            },
    {
        Opcode::from_byte(byte)
    }

    /// Pushes an int as four big-endian bytes.
    pub fn ipush(&mut self, value: i32) -> (r: Result<(), ExecutionError>)
        ensures
            frame_except_stack(final(self).frame, old(self).frame),
            final(self).pending == old(self).pending,
            match r {
                Ok(()) => {
                    &&& old(self).frame.operand_stack.stack@.len() + 4 <= old(self).frame.operand_stack.max_depth
                    &&& final(self).frame.operand_stack.stack@ == old(self).frame.operand_stack.stack@ + be32(bits_of_i32(value))
                },
                Err(e) => {
                    &&& e == ExecutionError::StackOverflow
                    &&& old(self).frame.operand_stack.stack@.len() + 4 > old(self).frame.operand_stack.max_depth
                    &&& final(self).frame.operand_stack.stack@ == old(self).frame.operand_stack.stack@
                },
            },
    {
        self.frame.operand_stack.push_u32(#[verifier::truncate] (value as u32))
    }

    /// Pops an int: four big-endian bytes from the top of the stack.
    pub fn ipop(&mut self) -> (r: Result<i32, ExecutionError>)
        ensures
            frame_except_stack(final(self).frame, old(self).frame),
            final(self).pending == old(self).pending,
            match r {
                Ok(v) => {
                    &&& old(self).frame.operand_stack.stack@.len() >= 4
                    &&& v == i32_of_bits(stack_top32(old(self).frame.operand_stack.stack@))
                    &&& final(self).frame.operand_stack.stack@ == stack_drop32(
                        old(self).frame.operand_stack.stack@,
                    )
                },
                Err(e) => {
                    &&& e == ExecutionError::StackUnderflow
                    &&& old(self).frame.operand_stack.stack@.len() < 4
                    &&& final(self).frame.operand_stack.stack@ == old(self).frame.operand_stack.stack@
                },
            },
    {
        let bits = self.frame.operand_stack.pop_u32()?;
        Ok(#[verifier::truncate] (bits as i32))
    }

    /// Pushes a long as eight big-endian bytes.
    pub fn lpush(&mut self, value: i64) -> (r: Result<(), ExecutionError>)
        ensures
            frame_except_stack(final(self).frame, old(self).frame),
            final(self).pending == old(self).pending,
            match r {
                Ok(()) => {
                    &&& old(self).frame.operand_stack.stack@.len() + 8 <= old(self).frame.operand_stack.max_depth
                    &&& final(self).frame.operand_stack.stack@ == old(self).frame.operand_stack.stack@ + be64(bits_of_i64(value))
                },
                Err(e) => {
                    &&& e == ExecutionError::StackOverflow
                    &&& old(self).frame.operand_stack.stack@.len() + 8 > old(self).frame.operand_stack.max_depth
                    &&& final(self).frame.operand_stack.stack@ == old(self).frame.operand_stack.stack@
                },
            },
    {
        self.frame.operand_stack.push_u64(#[verifier::truncate] (value as u64))
    }

    /// Pops a long: eight big-endian bytes from the top of the stack.
    pub fn lpop(&mut self) -> (r: Result<i64, ExecutionError>)
        ensures
            frame_except_stack(final(self).frame, old(self).frame),
            final(self).pending == old(self).pending,
            match r {
                Ok(v) => {
                    &&& old(self).frame.operand_stack.stack@.len() >= 8
                    &&& v == i64_of_bits(stack_top64(old(self).frame.operand_stack.stack@))
                    &&& final(self).frame.operand_stack.stack@ == stack_drop64(
                        old(self).frame.operand_stack.stack@,
                    )
                },
                Err(e) => {
                    &&& e == ExecutionError::StackUnderflow
                    &&& old(self).frame.operand_stack.stack@.len() < 8
                    &&& final(self).frame.operand_stack.stack@ == old(self).frame.operand_stack.stack@
                },
            },
    {
        let bits = self.frame.operand_stack.pop_u64()?;
        Ok(#[verifier::truncate] (bits as i64))
    }

    /// Pushes a float's bit pattern as four big-endian bytes.
    pub fn fpush(&mut self, bits: u32) -> (r: Result<(), ExecutionError>)
        ensures
            frame_except_stack(final(self).frame, old(self).frame),
            final(self).pending == old(self).pending,
            match r {
                Ok(()) => {
                    &&& old(self).frame.operand_stack.stack@.len() + 4 <= old(self).frame.operand_stack.max_depth
                    &&& final(self).frame.operand_stack.stack@ == old(self).frame.operand_stack.stack@ + be32(bits)
                },
                Err(e) => {
                    &&& e == ExecutionError::StackOverflow
                    &&& old(self).frame.operand_stack.stack@.len() + 4 > old(self).frame.operand_stack.max_depth
                    &&& final(self).frame.operand_stack.stack@ == old(self).frame.operand_stack.stack@
                },
            },
    {
        self.frame.operand_stack.push_u32(bits)
    }

    /// Pops a float's bit pattern.
    pub fn fpop(&mut self) -> (r: Result<u32, ExecutionError>)
        ensures
            frame_except_stack(final(self).frame, old(self).frame),
            final(self).pending == old(self).pending,
            match r {
                Ok(v) => {
                    &&& old(self).frame.operand_stack.stack@.len() >= 4
                    &&& v == stack_top32(old(self).frame.operand_stack.stack@)
                    &&& final(self).frame.operand_stack.stack@ == stack_drop32(
                        old(self).frame.operand_stack.stack@,
                    )
                },
                Err(e) => {
                    &&& e == ExecutionError::StackUnderflow
                    &&& old(self).frame.operand_stack.stack@.len() < 4
                    &&& final(self).frame.operand_stack.stack@ == old(self).frame.operand_stack.stack@
                },
            },
    {
        self.frame.operand_stack.pop_u32()
    }

    /// Pushes a double's bit pattern as eight big-endian bytes.
    pub fn dpush(&mut self, bits: u64) -> (r: Result<(), ExecutionError>)
        ensures
            frame_except_stack(final(self).frame, old(self).frame),
            final(self).pending == old(self).pending,
            match r {
                Ok(()) => {
                    &&& old(self).frame.operand_stack.stack@.len() + 8 <= old(self).frame.operand_stack.max_depth
                    &&& final(self).frame.operand_stack.stack@ == old(self).frame.operand_stack.stack@ + be64(bits)
                },
                Err(e) => {
                    &&& e == ExecutionError::StackOverflow
                    &&& old(self).frame.operand_stack.stack@.len() + 8 > old(self).frame.operand_stack.max_depth
                    &&& final(self).frame.operand_stack.stack@ == old(self).frame.operand_stack.stack@
                },
            },
    {
        self.frame.operand_stack.push_u64(bits)
    }

    /// Pops a double's bit pattern.
    pub fn dpop(&mut self) -> (r: Result<u64, ExecutionError>)
        ensures
            frame_except_stack(final(self).frame, old(self).frame),
            final(self).pending == old(self).pending,
            match r {
                Ok(v) => {
                    &&& old(self).frame.operand_stack.stack@.len() >= 8
                    &&& v == stack_top64(old(self).frame.operand_stack.stack@)
                    &&& final(self).frame.operand_stack.stack@ == stack_drop64(
                        old(self).frame.operand_stack.stack@,
                    )
                },
                Err(e) => {
                    &&& e == ExecutionError::StackUnderflow
                    &&& old(self).frame.operand_stack.stack@.len() < 8
                    &&& final(self).frame.operand_stack.stack@ == old(self).frame.operand_stack.stack@
                },
            },
    {
        self.frame.operand_stack.pop_u64()
    }

    /// Pops value 2 (the top of the stack) and then value 1, and
    /// pushes value 1 combined with value 2 (JVMS 6.5): the
    /// wraparound arithmetic, the bitwise logic and the shifts masked
    /// to five bits, with value 2 the divisor and the shift count.
    /// Division and remainder by zero fail.
    #[verifier::rlimit(100)]
    #[verifier::spinoff_prover]
    pub fn int_binop(&mut self, op: BinOp) -> (r: Result<i32, ExecutionError>)
        ensures
            frame_except_stack(final(self).frame, old(self).frame),
            final(self).pending == old(self).pending,
            ({
                let s0 = old(self).frame.operand_stack.stack@;
                let value2 = i32_of_bits(stack_top32(s0));
                let value1 = i32_of_bits(stack_top32(stack_drop32(s0)));
                r matches Ok(v) ==> {
                    &&& s0.len() >= 8
                    &&& s0.len() - 4 <= old(self).frame.operand_stack.max_depth
                    &&& int_bin_defined(op, value2)
                    &&& v == int_bin(op, value1, value2)
                    &&& final(self).frame.operand_stack.stack@ == stack_drop32(
                        stack_drop32(s0),
                    ) + be32(bits_of_i32(v))
                }
            }),
            ({
                let s0 = old(self).frame.operand_stack.stack@;
                let value2 = i32_of_bits(stack_top32(s0));
                let value1 = i32_of_bits(stack_top32(stack_drop32(s0)));
                match r {
                    Ok(v) => true,
                    Err(e) => match e {
                        ExecutionError::StackUnderflow => s0.len() < 8 && final(self).frame.operand_stack.stack@ == s0,
                        ExecutionError::DivisionByZero => {
                            &&& s0.len() >= 8
                            &&& (op is Div || op is Rem) && value2 == 0
                            &&& final(self).frame.operand_stack.stack@ == stack_drop32(
                                stack_drop32(s0),
                            )
                        },
                        ExecutionError::StackOverflow => {
                            &&& s0.len() >= 8
                            &&& int_bin_defined(op, value2)
                            &&& s0.len() - 8 + 4 > old(self).frame.operand_stack.max_depth
                            &&& final(self).frame.operand_stack.stack@ == stack_drop32(
                                stack_drop32(s0),
                            )
                        },
                        _ => false,
                    },
                }
            }),
    {
        if self.frame.operand_stack.stack.len() < 8 {
            return Err(ExecutionError::StackUnderflow);
        }
        let value2 = self.ipop()?;
        let value1 = self.ipop()?;
        if matches!(op, BinOp::Div | BinOp::Rem) && value2 == 0 {
            return Err(ExecutionError::DivisionByZero);
        }
        let v = Self::int_bin_exec(op, value1, value2);
        self.ipush(v)?;
        Ok(v)
    }

    /// Computes one 32-bit binary operation on already-popped
    /// operands.
    #[verifier::rlimit(100)]
    #[verifier::spinoff_prover]
    fn int_bin_exec(op: BinOp, a: i32, b: i32) -> (v: i32)
        requires
            int_bin_defined(op, b),
        ensures
            v == int_bin(op, a, b),
    {
        match op {
            BinOp::Add => a.wrapping_add(b),
            BinOp::Sub => a.wrapping_sub(b),
            BinOp::Mul => a.wrapping_mul(b),
            BinOp::Div => {
                if a == i32::MIN && b == -1 {
                    i32::MIN
                } else {
                    proof {
                        lemma_jvm_div_fits(a as int, b as int, i32::MIN as int, 0x8000_0000);
                    }
                    match a.checked_div(b) {
                        Some(q) => q,
                        None => vstd::pervasive::unreached(),
                    }
                }
            },
            BinOp::Rem => {
                if a == i32::MIN && b == -1 {
                    0
                } else {
                    proof {
                        lemma_jvm_rem_fits(a as int, b as int, i32::MIN as int, 0x8000_0000);
                    }
                    match a.checked_rem(b) {
                        Some(q) => q,
                        None => vstd::pervasive::unreached(),
                    }
                }
            },
            BinOp::And => a & b,
            BinOp::Or => a | b,
            BinOp::Xor => a ^ b,
            BinOp::Shl => {
                let sh: u32 = (#[verifier::truncate] (b as u32)) & 0x1F;
                a.wrapping_shl(sh)
            },
            BinOp::Shr => {
                let sh: u32 = (#[verifier::truncate] (b as u32)) & 0x1F;
                a.wrapping_shr(sh)
            },
            BinOp::Ushr => {
                let sh: u32 = (#[verifier::truncate] (b as u32)) & 0x1F;
                let ua: u32 = #[verifier::truncate] (a as u32);
                proof {
                    assert(sh < 32) by (bit_vector)
                        requires sh == (b as u32) & 0x1F;
                }
                #[verifier::truncate] ((ua >> sh) as i32)
            },
        }
    }

    /// Pops value 2 (the top of the stack) and then value 1, and
    /// pushes value 1 combined with value 2, with shifts masked to
    /// six bits (JVMS 6.5).
    #[verifier::rlimit(100)]
    #[verifier::spinoff_prover]
    pub fn long_binop(&mut self, op: BinOp) -> (r: Result<i64, ExecutionError>)
        ensures
            frame_except_stack(final(self).frame, old(self).frame),
            final(self).pending == old(self).pending,
            ({
                let s0 = old(self).frame.operand_stack.stack@;
                let value2 = i64_of_bits(stack_top64(s0));
                let value1 = i64_of_bits(stack_top64(stack_drop64(s0)));
                match r {
                    Ok(v) => {
                        &&& s0.len() >= 16
                        &&& s0.len() - 8 <= old(self).frame.operand_stack.max_depth
                        &&& long_bin_defined(op, value2)
                        &&& v == long_bin(op, value1, value2)
                        &&& final(self).frame.operand_stack.stack@ == stack_drop64(
                            stack_drop64(s0),
                        ) + be64(bits_of_i64(v))
                    },
                    Err(e) => match e {
                        ExecutionError::StackUnderflow => s0.len() < 16 && final(self).frame.operand_stack.stack@ == s0,
                        ExecutionError::DivisionByZero => {
                            &&& s0.len() >= 16
                            &&& (op is Div || op is Rem) && value2 == 0
                            &&& final(self).frame.operand_stack.stack@ == stack_drop64(
                                stack_drop64(s0),
                            )
                        },
                        ExecutionError::StackOverflow => {
                            &&& s0.len() >= 16
                            &&& long_bin_defined(op, value2)
                            &&& s0.len() - 16 + 8 > old(self).frame.operand_stack.max_depth
                            &&& final(self).frame.operand_stack.stack@ == stack_drop64(
                                stack_drop64(s0),
                            )
                        },
                        _ => false,
                    },
                }
            }),
    {
        if self.frame.operand_stack.stack.len() < 16 {
            return Err(ExecutionError::StackUnderflow);
        }
        let value2 = self.lpop()?;
        let value1 = self.lpop()?;
        if matches!(op, BinOp::Div | BinOp::Rem) && value2 == 0 {
            return Err(ExecutionError::DivisionByZero);
        }
        let v = Self::long_bin_exec(op, value1, value2);
        self.lpush(v)?;
        Ok(v)
    }

    /// Computes one 64-bit binary operation on already-popped
    /// operands.
    #[verifier::rlimit(100)]
    #[verifier::spinoff_prover]
    fn long_bin_exec(op: BinOp, a: i64, b: i64) -> (v: i64)
        requires
            long_bin_defined(op, b),
        ensures
            v == long_bin(op, a, b),
    {
        match op {
            BinOp::Add => a.wrapping_add(b),
            BinOp::Sub => a.wrapping_sub(b),
            BinOp::Mul => a.wrapping_mul(b),
            BinOp::Div => {
                if a == i64::MIN && b == -1 {
                    i64::MIN
                } else {
                    proof {
                        lemma_jvm_div_fits(
                            a as int,
                            b as int,
                            i64::MIN as int,
                            0x8000_0000_0000_0000,
                        );
                    }
                    match a.checked_div(b) {
                        Some(q) => q,
                        None => vstd::pervasive::unreached(),
                    }
                }
            },
            BinOp::Rem => {
                if a == i64::MIN && b == -1 {
                    0
                } else {
                    proof {
                        lemma_jvm_rem_fits(
                            a as int,
                            b as int,
                            i64::MIN as int,
                            0x8000_0000_0000_0000,
                        );
                    }
                    match a.checked_rem(b) {
                        Some(q) => q,
                        None => vstd::pervasive::unreached(),
                    }
                }
            },
            BinOp::And => a & b,
            BinOp::Or => a | b,
            BinOp::Xor => a ^ b,
            BinOp::Shl => {
                let sh64: u64 = (#[verifier::truncate] (b as u64)) & 0x3F;
                proof {
                    assert(sh64 <= 0x3F) by (bit_vector)
                        requires sh64 == (b as u64) & 0x3F;
                }
                a.wrapping_shl(sh64 as u32)
            },
            BinOp::Shr => {
                let sh64: u64 = (#[verifier::truncate] (b as u64)) & 0x3F;
                proof {
                    assert(sh64 <= 0x3F) by (bit_vector)
                        requires sh64 == (b as u64) & 0x3F;
                }
                a.wrapping_shr(sh64 as u32)
            },
            BinOp::Ushr => {
                let sh64: u64 = (#[verifier::truncate] (b as u64)) & 0x3F;
                let ua: u64 = #[verifier::truncate] (a as u64);
                proof {
                    assert(sh64 < 64) by (bit_vector)
                        requires sh64 == (b as u64) & 0x3F;
                }
                #[verifier::truncate] ((ua >> (sh64 as u32)) as i64)
            },
        }
    }
}

/// A category-cell rearrangement of the operand stack (JVMS 6.5):
/// the pop, dup and swap family, over 4-byte category-1 cells, a
/// category-2 value standing as two cells.
#[derive(Clone, Copy, Debug, PartialEq, Eq, Structural)]
pub enum StackOp {
    Pop,
    Pop2,
    Dup,
    DupX1,
    DupX2,
    Dup2,
    Dup2X1,
    Dup2X2,
    Swap,
}

/// The bytes a rearrangement needs on the stack.
pub open spec fn stack_op_needs(op: StackOp) -> int {
    match op {
        StackOp::Pop => 4,
        StackOp::Pop2 => 8,
        StackOp::Dup => 4,
        StackOp::DupX1 => 8,
        StackOp::DupX2 => 12,
        StackOp::Dup2 => 8,
        StackOp::Dup2X1 => 12,
        StackOp::Dup2X2 => 16,
        StackOp::Swap => 8,
    }
}

/// The net change in stack depth a rearrangement causes.
pub open spec fn stack_op_grow(op: StackOp) -> int {
    match op {
        StackOp::Pop => -4,
        StackOp::Pop2 => -8,
        StackOp::Dup => 4,
        StackOp::DupX1 => 4,
        StackOp::DupX2 => 4,
        StackOp::Dup2 => 8,
        StackOp::Dup2X1 => 8,
        StackOp::Dup2X2 => 8,
        StackOp::Swap => 0,
    }
}

/// The stack after a rearrangement: the duplication patterns of
/// JVMS 6.5, with cell 1 the topmost 4-byte cell.
pub open spec fn stack_op_result(op: StackOp, s: Seq<u8>) -> Seq<u8> {
    let n = s.len() as int;
    let c1 = s.subrange(n - 4, n);
    let c2 = s.subrange(n - 8, n - 4);
    let c3 = s.subrange(n - 12, n - 8);
    let top8 = s.subrange(n - 8, n);
    match op {
        StackOp::Pop => s.subrange(0, n - 4),
        StackOp::Pop2 => s.subrange(0, n - 8),
        StackOp::Dup => s + c1,
        StackOp::DupX1 => s.subrange(0, n - 8) + c1 + c2 + c1,
        StackOp::DupX2 => s.subrange(0, n - 12) + c1 + c3 + c2 + c1,
        StackOp::Dup2 => s + top8,
        StackOp::Dup2X1 => s.subrange(0, n - 12) + top8 + c3 + top8,
        StackOp::Dup2X2 => s.subrange(0, n - 16) + top8 + s.subrange(n - 16, n - 8) + top8,
        StackOp::Swap => s.subrange(0, n - 8) + c1 + c2,
    }
}

/// A snapshot of the state one instruction changes: the program
/// counter, the operand stack bytes and the local variable table.
/// The code, the declared return type, the constant pool and the
/// stack's maximum depth never change during execution and stand
/// apart.
pub struct VmState {
    pub pc: u32,
    pub stack: Seq<u8>,
    pub locals: Seq<Option<Variable>>,
}

/// A fault, described at the specification level. Most errors are
/// described exactly; where an error carries a string or a cloned
/// type tag, whose construction the specification cannot repeat, the
/// description carries the contents instead and
/// [`fault_matches`] compares them.
pub enum SpecFault {
    /// The error equals this value.
    Exact(ExecutionError),
    /// A return type mismatch: the expected tag is the frame's
    /// declared return type, the actual tag is this one.
    BadReturn(Type),
    /// A local of the wrong kind: the kind names wanted and found.
    LocalWrongType { wanted: Seq<char>, actual: Seq<char> },
}

/// Whether an execution error is the one a fault description names,
/// under the frame's declared return type `rt`.
pub open spec fn fault_matches(e: ExecutionError, f: SpecFault, rt: Type) -> bool {
    match f {
        SpecFault::Exact(e2) => e == e2,
        SpecFault::BadReturn(actual) => (e matches ExecutionError::BadReturnType(exp, act)
            && type_eq(exp, rt) && act == actual),
        SpecFault::LocalWrongType { wanted, actual } => (e matches ExecutionError::Local(
            LookupError::WrongType(te),
        ) && te.wanted_type@ == wanted && te.actual_type@ == actual),
    }
}

/// What one instruction does to a state.
pub enum StepRes {
    /// Execution continues in this state.
    Next(VmState),
    /// The caller must compute this floating-point request and
    /// resume; the operands have been popped.
    Request(VmState, FloatRequest),
    /// A return instruction halted the frame with this value.
    Done(Variable),
    /// A fault halted the frame.
    Fault(SpecFault),
}

/// The mutable state an interpreter holds.
pub open spec fn interp_state(i: Interpreter) -> VmState {
    VmState {
        pc: i.frame.pc,
        stack: i.frame.operand_stack.stack@,
        locals: i.frame.locals.variables@,
    }
}

/// Pushing one 32-bit constant.
pub open spec fn step_push32(s: VmState, max: nat, bits: u32) -> StepRes {
    if s.stack.len() + 4 > max {
        StepRes::Fault(SpecFault::Exact(ExecutionError::StackOverflow))
    } else {
        StepRes::Next(VmState { pc: s.pc, stack: s.stack + be32(bits), locals: s.locals })
    }
}

/// Pushing one 64-bit constant.
pub open spec fn step_push64(s: VmState, max: nat, bits: u64) -> StepRes {
    if s.stack.len() + 8 > max {
        StepRes::Fault(SpecFault::Exact(ExecutionError::StackOverflow))
    } else {
        StepRes::Next(VmState { pc: s.pc, stack: s.stack + be64(bits), locals: s.locals })
    }
}

/// A 32-bit binary arithmetic, logic or shift instruction: value 2 is
/// popped off the top, then value 1, and value 1 combined with value
/// 2 is pushed.
pub open spec fn step_ibin(s: VmState, max: nat, op: BinOp) -> StepRes {
    if s.stack.len() < 8 {
        StepRes::Fault(SpecFault::Exact(ExecutionError::StackUnderflow))
    } else {
        let value2 = i32_of_bits(stack_top32(s.stack));
        let value1 = i32_of_bits(stack_top32(stack_drop32(s.stack)));
        if (op is Div || op is Rem) && value2 == 0 {
            StepRes::Fault(SpecFault::Exact(ExecutionError::DivisionByZero))
        } else if s.stack.len() - 4 > max {
            StepRes::Fault(SpecFault::Exact(ExecutionError::StackOverflow))
        } else {
            StepRes::Next(
                VmState {
                    pc: s.pc,
                    stack: stack_drop32(stack_drop32(s.stack)) + be32(
                        bits_of_i32(int_bin(op, value1, value2)),
                    ),
                    locals: s.locals,
                },
            )
        }
    }
}

/// A 64-bit binary arithmetic, logic or shift instruction.
pub open spec fn step_lbin(s: VmState, max: nat, op: BinOp) -> StepRes {
    if s.stack.len() < 16 {
        StepRes::Fault(SpecFault::Exact(ExecutionError::StackUnderflow))
    } else {
        let value2 = i64_of_bits(stack_top64(s.stack));
        let value1 = i64_of_bits(stack_top64(stack_drop64(s.stack)));
        if (op is Div || op is Rem) && value2 == 0 {
            StepRes::Fault(SpecFault::Exact(ExecutionError::DivisionByZero))
        } else if s.stack.len() - 8 > max {
            StepRes::Fault(SpecFault::Exact(ExecutionError::StackOverflow))
        } else {
            StepRes::Next(
                VmState {
                    pc: s.pc,
                    stack: stack_drop64(stack_drop64(s.stack)) + be64(
                        bits_of_i64(long_bin(op, value1, value2)),
                    ),
                    locals: s.locals,
                },
            )
        }
    }
}

/// Negating the 32-bit value on top of the stack, or, with the flip
/// mask of the sign bit, an IEEE-754 float negation.
pub open spec fn step_neg32(s: VmState, max: nat, float_mask: Option<u32>) -> StepRes {
    if s.stack.len() < 4 {
        StepRes::Fault(SpecFault::Exact(ExecutionError::StackUnderflow))
    } else if s.stack.len() > max {
        StepRes::Fault(SpecFault::Exact(ExecutionError::StackOverflow))
    } else {
        let bits = match float_mask {
            Some(m) => stack_top32(s.stack) ^ m,
            None => bits_of_i32(i32_specs::wrapping_sub(0i32, i32_of_bits(stack_top32(s.stack)))),
        };
        StepRes::Next(
            VmState { pc: s.pc, stack: stack_drop32(s.stack) + be32(bits), locals: s.locals },
        )
    }
}

/// Negating the 64-bit value on top of the stack.
pub open spec fn step_neg64(s: VmState, max: nat, float_mask: Option<u64>) -> StepRes {
    if s.stack.len() < 8 {
        StepRes::Fault(SpecFault::Exact(ExecutionError::StackUnderflow))
    } else if s.stack.len() > max {
        StepRes::Fault(SpecFault::Exact(ExecutionError::StackOverflow))
    } else {
        let bits = match float_mask {
            Some(m) => stack_top64(s.stack) ^ m,
            None => bits_of_i64(i64_specs::wrapping_sub(0i64, i64_of_bits(stack_top64(s.stack)))),
        };
        StepRes::Next(
            VmState { pc: s.pc, stack: stack_drop64(s.stack) + be64(bits), locals: s.locals },
        )
    }
}

/// The three-way long comparison: value 2 on top, then value 1; 1,
/// minus 1 or 0 is pushed as value 1 compares against value 2.
pub open spec fn step_lcmp(s: VmState, max: nat) -> StepRes {
    if s.stack.len() < 16 {
        StepRes::Fault(SpecFault::Exact(ExecutionError::StackUnderflow))
    } else if s.stack.len() - 12 > max {
        StepRes::Fault(SpecFault::Exact(ExecutionError::StackOverflow))
    } else {
        let value2 = i64_of_bits(stack_top64(s.stack));
        let value1 = i64_of_bits(stack_top64(stack_drop64(s.stack)));
        let v: i32 = if value1 > value2 {
            1
        } else if value1 < value2 {
            (-1) as i32
        } else {
            0
        };
        StepRes::Next(
            VmState {
                pc: s.pc,
                stack: stack_drop64(stack_drop64(s.stack)) + be32(bits_of_i32(v)),
                locals: s.locals,
            },
        )
    }
}

/// A NaN-aware float comparison over the top two 32-bit cells.
pub open spec fn step_fcmp(s: VmState, max: nat, nan_result: i32) -> StepRes {
    if s.stack.len() < 8 {
        StepRes::Fault(SpecFault::Exact(ExecutionError::StackUnderflow))
    } else if s.stack.len() - 4 > max {
        StepRes::Fault(SpecFault::Exact(ExecutionError::StackOverflow))
    } else {
        let v = float_cmp(
            stack_top32(stack_drop32(s.stack)),
            stack_top32(s.stack),
            nan_result,
        );
        StepRes::Next(
            VmState {
                pc: s.pc,
                stack: stack_drop32(stack_drop32(s.stack)) + be32(bits_of_i32(v)),
                locals: s.locals,
            },
        )
    }
}

/// A NaN-aware double comparison over the top two 64-bit values.
pub open spec fn step_dcmp(s: VmState, max: nat, nan_result: i32) -> StepRes {
    if s.stack.len() < 16 {
        StepRes::Fault(SpecFault::Exact(ExecutionError::StackUnderflow))
    } else if s.stack.len() - 12 > max {
        StepRes::Fault(SpecFault::Exact(ExecutionError::StackOverflow))
    } else {
        let v = double_cmp(
            stack_top64(stack_drop64(s.stack)),
            stack_top64(s.stack),
            nan_result,
        );
        StepRes::Next(
            VmState {
                pc: s.pc,
                stack: stack_drop64(stack_drop64(s.stack)) + be32(bits_of_i32(v)),
                locals: s.locals,
            },
        )
    }
}

/// The fault when a local lookup misses or finds the wrong kind.
pub open spec fn local_fault(found: Option<Variable>, index: u16, wanted: Seq<char>) -> SpecFault {
    match found {
        None => SpecFault::Exact(
            ExecutionError::Local(LookupError::BadIndex(crate::class::constant_pool::IndexError { index })),
        ),
        Some(other) => SpecFault::LocalWrongType {
            wanted,
            actual: crate::vm::types::variable_kind_name(other),
        },
    }
}

/// Loading an int local and pushing it.
pub open spec fn step_iload(s: VmState, max: nat, index: u16) -> StepRes {
    match local_at(s.locals, index) {
        Some(Variable::Int(l)) => step_push32(s, max, bits_of_i32(l.value)),
        found => StepRes::Fault(local_fault(found, index, "Int"@)),
    }
}

/// Loading a long local and pushing it.
pub open spec fn step_lload(s: VmState, max: nat, index: u16) -> StepRes {
    match local_at(s.locals, index) {
        Some(Variable::Long(l)) => step_push64(s, max, bits_of_i64(l.value)),
        found => StepRes::Fault(local_fault(found, index, "Long"@)),
    }
}

/// Loading a float local and pushing its bits.
pub open spec fn step_fload(s: VmState, max: nat, index: u16) -> StepRes {
    match local_at(s.locals, index) {
        Some(Variable::Float(l)) => step_push32(s, max, l.bits),
        found => StepRes::Fault(local_fault(found, index, "Float"@)),
    }
}

/// Loading a double local and pushing its bits.
pub open spec fn step_dload(s: VmState, max: nat, index: u16) -> StepRes {
    match local_at(s.locals, index) {
        Some(Variable::Double(l)) => step_push64(s, max, l.bits),
        found => StepRes::Fault(local_fault(found, index, "Double"@)),
    }
}

/// Popping the top int into a local slot.
pub open spec fn step_istore(s: VmState, index: u16) -> StepRes {
    if s.stack.len() < 4 {
        StepRes::Fault(SpecFault::Exact(ExecutionError::StackUnderflow))
    } else {
        StepRes::Next(
            VmState {
                pc: s.pc,
                stack: stack_drop32(s.stack),
                locals: locals_set(
                    s.locals,
                    index,
                    Variable::Int(Int { value: i32_of_bits(stack_top32(s.stack)) }),
                ),
            },
        )
    }
}

/// Popping the top long into a local slot.
pub open spec fn step_lstore(s: VmState, index: u16) -> StepRes {
    if s.stack.len() < 8 {
        StepRes::Fault(SpecFault::Exact(ExecutionError::StackUnderflow))
    } else {
        StepRes::Next(
            VmState {
                pc: s.pc,
                stack: stack_drop64(s.stack),
                locals: locals_set(
                    s.locals,
                    index,
                    Variable::Long(Long { value: i64_of_bits(stack_top64(s.stack)) }),
                ),
            },
        )
    }
}

/// Popping the top float's bits into a local slot.
pub open spec fn step_fstore(s: VmState, index: u16) -> StepRes {
    if s.stack.len() < 4 {
        StepRes::Fault(SpecFault::Exact(ExecutionError::StackUnderflow))
    } else {
        StepRes::Next(
            VmState {
                pc: s.pc,
                stack: stack_drop32(s.stack),
                locals: locals_set(
                    s.locals,
                    index,
                    Variable::Float(Float { bits: stack_top32(s.stack) }),
                ),
            },
        )
    }
}

/// Popping the top double's bits into a local slot.
pub open spec fn step_dstore(s: VmState, index: u16) -> StepRes {
    if s.stack.len() < 8 {
        StepRes::Fault(SpecFault::Exact(ExecutionError::StackUnderflow))
    } else {
        StepRes::Next(
            VmState {
                pc: s.pc,
                stack: stack_drop64(s.stack),
                locals: locals_set(
                    s.locals,
                    index,
                    Variable::Double(Double { bits: stack_top64(s.stack) }),
                ),
            },
        )
    }
}

/// Whether a rearrangement overflows the stack: the duplications
/// add a cell or two; the pops never overflow.
pub open spec fn stack_op_over(op: StackOp, len: nat, max: nat) -> bool {
    match op {
        StackOp::Pop => false,
        StackOp::Pop2 => false,
        StackOp::Dup => len + 4 > max,
        StackOp::DupX1 => len + 4 > max,
        StackOp::DupX2 => len + 4 > max,
        StackOp::Dup2 => len + 8 > max,
        StackOp::Dup2X1 => len + 8 > max,
        StackOp::Dup2X2 => len + 8 > max,
        StackOp::Swap => len > max,
    }
}

/// A cell rearrangement of the pop, dup and swap family.
pub open spec fn step_stack_op(s: VmState, max: nat, op: StackOp) -> StepRes {
    if s.stack.len() < stack_op_needs(op) {
        StepRes::Fault(SpecFault::Exact(ExecutionError::StackUnderflow))
    } else if stack_op_over(op, s.stack.len(), max) {
        StepRes::Fault(SpecFault::Exact(ExecutionError::StackOverflow))
    } else {
        StepRes::Next(
            VmState { pc: s.pc, stack: stack_op_result(op, s.stack), locals: s.locals },
        )
    }
}

/// A widening or narrowing conversion computed in integer logic:
/// `from` bytes are popped and the image of `bits32` or, when the
/// result is category 2, of `bits64` is pushed.
pub open spec fn step_cast(
    s: VmState,
    max: nat,
    from: int,
    wide: bool,
    bits32: u32,
    bits64: u64,
) -> StepRes {
    if s.stack.len() < from {
        StepRes::Fault(SpecFault::Exact(ExecutionError::StackUnderflow))
    } else if s.stack.len() - from + (if wide { 8int } else { 4int }) > max {
        StepRes::Fault(SpecFault::Exact(ExecutionError::StackOverflow))
    } else {
        let dropped = if from == 4 { stack_drop32(s.stack) } else { stack_drop64(s.stack) };
        let pushed = if wide { be64(bits64) } else { be32(bits32) };
        StepRes::Next(VmState { pc: s.pc, stack: dropped + pushed, locals: s.locals })
    }
}

/// Popping the operands of a floating-point request: `from` bytes per
/// operand, `binary` meaning two of them; value 1 lies under value 2.
pub open spec fn step_float_request(s: VmState, op: Opcode, from: int, binary: bool) -> StepRes {
    let total = if binary { 2 * from } else { from };
    if s.stack.len() < total {
        StepRes::Fault(SpecFault::Exact(ExecutionError::StackUnderflow))
    } else {
        let top: u64 = if from == 4 { stack_top32(s.stack) as u64 } else { stack_top64(s.stack) };
        let under: u64 = if from == 4 {
            stack_top32(stack_drop32(s.stack)) as u64
        } else {
            stack_top64(stack_drop64(s.stack))
        };
        let remaining = if binary {
            if from == 4 {
                stack_drop32(stack_drop32(s.stack))
            } else {
                stack_drop64(stack_drop64(s.stack))
            }
        } else {
            if from == 4 {
                stack_drop32(s.stack)
            } else {
                stack_drop64(s.stack)
            }
        };
        let req = if binary {
            FloatRequest { op, a: under, b: top }
        } else {
            FloatRequest { op, a: top, b: 0 }
        };
        StepRes::Request(VmState { pc: s.pc, stack: remaining, locals: s.locals }, req)
    }
}

/// A typed return: the declared return type must carry the matching
/// tag, and the top value of that width is yielded.
pub open spec fn step_return(s: VmState, rt: Type, tag: Type) -> StepRes {
    if !type_eq(rt, tag) {
        StepRes::Fault(SpecFault::BadReturn(tag))
    } else {
        match tag {
            Type::I => if s.stack.len() < 4 {
                StepRes::Fault(SpecFault::Exact(ExecutionError::StackUnderflow))
            } else {
                StepRes::Done(Variable::Int(Int { value: i32_of_bits(stack_top32(s.stack)) }))
            },
            Type::J => if s.stack.len() < 8 {
                StepRes::Fault(SpecFault::Exact(ExecutionError::StackUnderflow))
            } else {
                StepRes::Done(Variable::Long(Long { value: i64_of_bits(stack_top64(s.stack)) }))
            },
            Type::F => if s.stack.len() < 4 {
                StepRes::Fault(SpecFault::Exact(ExecutionError::StackUnderflow))
            } else {
                StepRes::Done(Variable::Float(Float { bits: stack_top32(s.stack) }))
            },
            Type::D => if s.stack.len() < 8 {
                StepRes::Fault(SpecFault::Exact(ExecutionError::StackUnderflow))
            } else {
                StepRes::Done(Variable::Double(Double { bits: stack_top64(s.stack) }))
            },
            _ => StepRes::Done(Variable::Null(Null {})),
        }
    }
}

/// A conditional or unconditional branch: the signed 16-bit offset at
/// the counter is read, `pops` operand bytes leave the stack, and on
/// taken the counter becomes the branch opcode's address plus the
/// offset, checked against the jump bounds; on not taken it advances
/// past the offset bytes.
pub open spec fn step_branch(code: Seq<u8>, s: VmState, taken: bool, pops: int) -> StepRes {
    if s.pc + 2 > code.len() {
        StepRes::Fault(SpecFault::Exact(ExecutionError::EndOfCode(s.pc)))
    } else if s.stack.len() < pops {
        StepRes::Fault(SpecFault::Exact(ExecutionError::StackUnderflow))
    } else {
        let target = s.pc - 1 + be_i16(code[s.pc as int], code[s.pc + 1]);
        let dropped = if pops == 0 {
            s.stack
        } else if pops == 4 {
            stack_drop32(s.stack)
        } else {
            stack_drop32(stack_drop32(s.stack))
        };
        if !taken {
            StepRes::Next(
                VmState { pc: (s.pc + 2) as u32, stack: dropped, locals: s.locals },
            )
        } else if 0 <= target <= code.len() {
            StepRes::Next(VmState { pc: target as u32, stack: dropped, locals: s.locals })
        } else {
            StepRes::Fault(
                SpecFault::Exact(
                    ExecutionError::JumpOutOfBounds(target as i64, code.len() as usize),
                ),
            )
        }
    }
}

/// Whether a conditional branch on one int against zero is taken.
pub open spec fn branch_zero_taken(code: Seq<u8>, s: VmState, cond: Cond) -> bool {
    cond_holds(cond, i32_of_bits(stack_top32(s.stack)), 0)
}

/// Whether a conditional branch on two ints is taken: value 1 lies
/// under value 2.
pub open spec fn branch_cmp_taken(code: Seq<u8>, s: VmState, cond: Cond) -> bool {
    cond_holds(
        cond,
        i32_of_bits(stack_top32(stack_drop32(s.stack))),
        i32_of_bits(stack_top32(s.stack)),
    )
}

/// What one decoded instruction does, the program counter already
/// past the opcode byte: the per-family semantics of JVMS 6.5 that
/// this interpreter implements, a fault for anything else.
pub open spec fn step_op(code: Seq<u8>, rt: Type, max: nat, s: VmState, op: Opcode) -> StepRes {
    match op {
        Opcode::Nop => StepRes::Next(s),
        Opcode::IConstM1 => step_push32(s, max, bits_of_i32(-1i32)),
        Opcode::IConst0 => step_push32(s, max, bits_of_i32(0i32)),
        Opcode::IConst1 => step_push32(s, max, bits_of_i32(1i32)),
        Opcode::IConst2 => step_push32(s, max, bits_of_i32(2i32)),
        Opcode::IConst3 => step_push32(s, max, bits_of_i32(3i32)),
        Opcode::IConst4 => step_push32(s, max, bits_of_i32(4i32)),
        Opcode::IConst5 => step_push32(s, max, bits_of_i32(5i32)),
        Opcode::LConst0 => step_push64(s, max, bits_of_i64(0i64)),
        Opcode::LConst1 => step_push64(s, max, bits_of_i64(1i64)),
        Opcode::FConst0 => step_push32(s, max, 0x0000_0000u32),
        Opcode::FConst1 => step_push32(s, max, 0x3F80_0000u32),
        Opcode::FConst2 => step_push32(s, max, 0x4000_0000u32),
        Opcode::DConst0 => step_push64(s, max, 0x0000_0000_0000_0000u64),
        Opcode::DConst1 => step_push64(s, max, 0x3FF0_0000_0000_0000u64),
        Opcode::BIpush => if s.pc >= code.len() {
            StepRes::Fault(SpecFault::Exact(ExecutionError::EndOfCode(s.pc)))
        } else {
            step_push32(
                VmState { pc: (s.pc + 1) as u32, stack: s.stack, locals: s.locals },
                max,
                bits_of_i32(((code[s.pc as int] as i8) as i32)),
            )
        },
        Opcode::SIpush => if s.pc >= code.len() {
            StepRes::Fault(SpecFault::Exact(ExecutionError::EndOfCode(s.pc)))
        } else if s.pc + 1 >= code.len() {
            StepRes::Fault(SpecFault::Exact(ExecutionError::EndOfCode((s.pc + 1) as u32)))
        } else {
            step_push32(
                VmState { pc: (s.pc + 2) as u32, stack: s.stack, locals: s.locals },
                max,
                bits_of_i32((be_i16(code[s.pc as int], code[s.pc + 1]) as i32)),
            )
        },
        Opcode::ILoad => if s.pc >= code.len() {
            StepRes::Fault(SpecFault::Exact(ExecutionError::EndOfCode(s.pc)))
        } else {
            step_iload(
                VmState { pc: (s.pc + 1) as u32, stack: s.stack, locals: s.locals },
                max,
                code[s.pc as int] as u16,
            )
        },
        Opcode::ILoad0 => step_iload(s, max, 0),
        Opcode::ILoad1 => step_iload(s, max, 1),
        Opcode::ILoad2 => step_iload(s, max, 2),
        Opcode::ILoad3 => step_iload(s, max, 3),
        Opcode::LLoad => if s.pc >= code.len() {
            StepRes::Fault(SpecFault::Exact(ExecutionError::EndOfCode(s.pc)))
        } else {
            step_lload(
                VmState { pc: (s.pc + 1) as u32, stack: s.stack, locals: s.locals },
                max,
                code[s.pc as int] as u16,
            )
        },
        Opcode::LLoad0 => step_lload(s, max, 0),
        Opcode::LLoad1 => step_lload(s, max, 1),
        Opcode::LLoad2 => step_lload(s, max, 2),
        Opcode::LLoad3 => step_lload(s, max, 3),
        Opcode::FLoad => if s.pc >= code.len() {
            StepRes::Fault(SpecFault::Exact(ExecutionError::EndOfCode(s.pc)))
        } else {
            step_fload(
                VmState { pc: (s.pc + 1) as u32, stack: s.stack, locals: s.locals },
                max,
                code[s.pc as int] as u16,
            )
        },
        Opcode::FLoad0 => step_fload(s, max, 0),
        Opcode::FLoad1 => step_fload(s, max, 1),
        Opcode::FLoad2 => step_fload(s, max, 2),
        Opcode::FLoad3 => step_fload(s, max, 3),
        Opcode::DLoad => if s.pc >= code.len() {
            StepRes::Fault(SpecFault::Exact(ExecutionError::EndOfCode(s.pc)))
        } else {
            step_dload(
                VmState { pc: (s.pc + 1) as u32, stack: s.stack, locals: s.locals },
                max,
                code[s.pc as int] as u16,
            )
        },
        Opcode::DLoad0 => step_dload(s, max, 0),
        Opcode::DLoad1 => step_dload(s, max, 1),
        Opcode::DLoad2 => step_dload(s, max, 2),
        Opcode::DLoad3 => step_dload(s, max, 3),
        Opcode::IStore => if s.pc >= code.len() {
            StepRes::Fault(SpecFault::Exact(ExecutionError::EndOfCode(s.pc)))
        } else {
            step_istore(
                VmState { pc: (s.pc + 1) as u32, stack: s.stack, locals: s.locals },
                code[s.pc as int] as u16,
            )
        },
        Opcode::IStore0 => step_istore(s, 0),
        Opcode::IStore1 => step_istore(s, 1),
        Opcode::IStore2 => step_istore(s, 2),
        Opcode::IStore3 => step_istore(s, 3),
        Opcode::LStore => if s.pc >= code.len() {
            StepRes::Fault(SpecFault::Exact(ExecutionError::EndOfCode(s.pc)))
        } else {
            step_lstore(
                VmState { pc: (s.pc + 1) as u32, stack: s.stack, locals: s.locals },
                code[s.pc as int] as u16,
            )
        },
        Opcode::LStore0 => step_lstore(s, 0),
        Opcode::LStore1 => step_lstore(s, 1),
        Opcode::LStore2 => step_lstore(s, 2),
        Opcode::LStore3 => step_lstore(s, 3),
        Opcode::FStore => if s.pc >= code.len() {
            StepRes::Fault(SpecFault::Exact(ExecutionError::EndOfCode(s.pc)))
        } else {
            step_fstore(
                VmState { pc: (s.pc + 1) as u32, stack: s.stack, locals: s.locals },
                code[s.pc as int] as u16,
            )
        },
        Opcode::FStore0 => step_fstore(s, 0),
        Opcode::FStore1 => step_fstore(s, 1),
        Opcode::FStore2 => step_fstore(s, 2),
        Opcode::FStore3 => step_fstore(s, 3),
        Opcode::DStore => if s.pc >= code.len() {
            StepRes::Fault(SpecFault::Exact(ExecutionError::EndOfCode(s.pc)))
        } else {
            step_dstore(
                VmState { pc: (s.pc + 1) as u32, stack: s.stack, locals: s.locals },
                code[s.pc as int] as u16,
            )
        },
        Opcode::DStore0 => step_dstore(s, 0),
        Opcode::DStore1 => step_dstore(s, 1),
        Opcode::DStore2 => step_dstore(s, 2),
        Opcode::DStore3 => step_dstore(s, 3),
        Opcode::Pop => step_stack_op(s, max, StackOp::Pop),
        Opcode::Pop2 => step_stack_op(s, max, StackOp::Pop2),
        Opcode::Dup => step_stack_op(s, max, StackOp::Dup),
        Opcode::DupX1 => step_stack_op(s, max, StackOp::DupX1),
        Opcode::DupX2 => step_stack_op(s, max, StackOp::DupX2),
        Opcode::Dup2 => step_stack_op(s, max, StackOp::Dup2),
        Opcode::Dup2X1 => step_stack_op(s, max, StackOp::Dup2X1),
        Opcode::Dup2X2 => step_stack_op(s, max, StackOp::Dup2X2),
        Opcode::Swap => step_stack_op(s, max, StackOp::Swap),
        Opcode::IAdd => step_ibin(s, max, BinOp::Add),
        Opcode::ISub => step_ibin(s, max, BinOp::Sub),
        Opcode::IMul => step_ibin(s, max, BinOp::Mul),
        Opcode::IDiv => step_ibin(s, max, BinOp::Div),
        Opcode::IRem => step_ibin(s, max, BinOp::Rem),
        Opcode::IShl => step_ibin(s, max, BinOp::Shl),
        Opcode::IShr => step_ibin(s, max, BinOp::Shr),
        Opcode::IUShr => step_ibin(s, max, BinOp::Ushr),
        Opcode::IAnd => step_ibin(s, max, BinOp::And),
        Opcode::IOr => step_ibin(s, max, BinOp::Or),
        Opcode::IXor => step_ibin(s, max, BinOp::Xor),
        Opcode::LAdd => step_lbin(s, max, BinOp::Add),
        Opcode::LSub => step_lbin(s, max, BinOp::Sub),
        Opcode::LMul => step_lbin(s, max, BinOp::Mul),
        Opcode::LDiv => step_lbin(s, max, BinOp::Div),
        Opcode::LRem => step_lbin(s, max, BinOp::Rem),
        Opcode::LShl => step_lbin(s, max, BinOp::Shl),
        Opcode::LShr => step_lbin(s, max, BinOp::Shr),
        Opcode::LUShr => step_lbin(s, max, BinOp::Ushr),
        Opcode::LAnd => step_lbin(s, max, BinOp::And),
        Opcode::LOr => step_lbin(s, max, BinOp::Or),
        Opcode::LXor => step_lbin(s, max, BinOp::Xor),
        Opcode::INeg => step_neg32(s, max, None),
        Opcode::LNeg => step_neg64(s, max, None),
        Opcode::FNeg => step_neg32(s, max, Some(0x80000000u32)),
        Opcode::DNeg => step_neg64(s, max, Some(0x8000000000000000u64)),
        Opcode::FAdd => step_float_request(s, op, 4, true),
        Opcode::FSub => step_float_request(s, op, 4, true),
        Opcode::FMul => step_float_request(s, op, 4, true),
        Opcode::FDiv => step_float_request(s, op, 4, true),
        Opcode::FRem => step_float_request(s, op, 4, true),
        Opcode::DAdd => step_float_request(s, op, 8, true),
        Opcode::DSub => step_float_request(s, op, 8, true),
        Opcode::DMul => step_float_request(s, op, 8, true),
        Opcode::DDiv => step_float_request(s, op, 8, true),
        Opcode::DRem => step_float_request(s, op, 8, true),
        Opcode::I2F => step_float_request(s, op, 4, false),
        Opcode::I2D => step_float_request(s, op, 4, false),
        Opcode::F2I => step_float_request(s, op, 4, false),
        Opcode::F2L => step_float_request(s, op, 4, false),
        Opcode::F2D => step_float_request(s, op, 4, false),
        Opcode::L2F => step_float_request(s, op, 8, false),
        Opcode::L2D => step_float_request(s, op, 8, false),
        Opcode::D2I => step_float_request(s, op, 8, false),
        Opcode::D2L => step_float_request(s, op, 8, false),
        Opcode::D2F => step_float_request(s, op, 8, false),
        Opcode::I2L => step_cast(s, max, 4, true, 0, bits_of_i64((i32_of_bits(stack_top32(s.stack)) as i64))),
        Opcode::L2I => step_cast(s, max, 8, false, bits_of_i32((i64_of_bits(stack_top64(s.stack)) as i32)), 0),
        Opcode::I2B => step_cast(s, max, 4, false, bits_of_i32(((i32_of_bits(stack_top32(s.stack)) as i8) as i32)), 0),
        Opcode::I2C => step_cast(s, max, 4, false, bits_of_i32(((stack_top32(s.stack) & 0xFFFF) as i32)), 0),
        Opcode::I2S => step_cast(s, max, 4, false, bits_of_i32(((i32_of_bits(stack_top32(s.stack)) as i16) as i32)), 0),
        Opcode::LCmp => step_lcmp(s, max),
        Opcode::FCmpL => step_fcmp(s, max, (-1) as i32),
        Opcode::FCmpG => step_fcmp(s, max, 1),
        Opcode::DCmpL => step_dcmp(s, max, (-1) as i32),
        Opcode::DCmpG => step_dcmp(s, max, 1),
        Opcode::IfEq => step_branch(code, s, branch_zero_taken(code, s, Cond::Eq), 4),
        Opcode::IfNe => step_branch(code, s, branch_zero_taken(code, s, Cond::Ne), 4),
        Opcode::IfLt => step_branch(code, s, branch_zero_taken(code, s, Cond::Lt), 4),
        Opcode::IfGe => step_branch(code, s, branch_zero_taken(code, s, Cond::Ge), 4),
        Opcode::IfGt => step_branch(code, s, branch_zero_taken(code, s, Cond::Gt), 4),
        Opcode::IfLe => step_branch(code, s, branch_zero_taken(code, s, Cond::Le), 4),
        Opcode::IfICmpEq => step_branch(code, s, branch_cmp_taken(code, s, Cond::Eq), 8),
        Opcode::IfICmpNe => step_branch(code, s, branch_cmp_taken(code, s, Cond::Ne), 8),
        Opcode::IfICmpLt => step_branch(code, s, branch_cmp_taken(code, s, Cond::Lt), 8),
        Opcode::IfICmpGe => step_branch(code, s, branch_cmp_taken(code, s, Cond::Ge), 8),
        Opcode::IfICmpGt => step_branch(code, s, branch_cmp_taken(code, s, Cond::Gt), 8),
        Opcode::IfICmpLe => step_branch(code, s, branch_cmp_taken(code, s, Cond::Le), 8),
        Opcode::Goto => step_branch(code, s, true, 0),
        Opcode::IReturn => step_return(s, rt, Type::I),
        Opcode::LReturn => step_return(s, rt, Type::J),
        Opcode::FReturn => step_return(s, rt, Type::F),
        Opcode::DReturn => step_return(s, rt, Type::D),
        Opcode::Return => step_return(s, rt, Type::V),
        Opcode::Breakpoint => StepRes::Next(s),
        Opcode::Impdep1 => StepRes::Next(s),
        Opcode::Impdep2 => StepRes::Next(s),
        _ => StepRes::Fault(SpecFault::Exact(ExecutionError::UnimplementedOpcode(op))),
    }
}

/// One fetch/decode/execute step from a state: fetching past the end
/// of the code or an unassigned byte faults, anything else is the
/// decoded instruction's work.
pub open spec fn step_spec(code: Seq<u8>, rt: Type, max: nat, s: VmState) -> StepRes {
    if s.pc >= code.len() {
        StepRes::Fault(SpecFault::Exact(ExecutionError::EndOfCode(s.pc)))
    } else {
        let b = code[s.pc as int];
        if !crate::isa::opcode::is_opcode_byte(b) {
            StepRes::Fault(SpecFault::Exact(ExecutionError::DecodeError(b)))
        } else {
            step_op(
                code,
                rt,
                max,
                VmState { pc: (s.pc + 1) as u32, stack: s.stack, locals: s.locals },
                crate::isa::opcode::opcode_of(b),
            )
        }
    }
}

/// How a run of the interpreter ends.
pub enum RunRes {
    /// A return instruction yielded this value.
    RDone(Variable),
    /// A floating-point request suspended the run in this state.
    RRequest(VmState, FloatRequest),
    /// A fault ended the run.
    RFault(SpecFault),
}

/// Running from a state for at most `fuel` instructions: steps are
/// taken until a return, a request or a fault; an exhausted budget is
/// the step-limit fault.
pub open spec fn run_spec(code: Seq<u8>, rt: Type, max: nat, s: VmState, fuel: nat) -> RunRes
    decreases fuel,
{
    if fuel == 0 {
        RunRes::RFault(SpecFault::Exact(ExecutionError::StepLimitExceeded))
    } else {
        match step_spec(code, rt, max, s) {
            StepRes::Next(s2) => run_spec(code, rt, max, s2, (fuel - 1) as nat),
            StepRes::Request(s2, req) => RunRes::RRequest(s2, req),
            StepRes::Done(v) => RunRes::RDone(v),
            StepRes::Fault(f) => RunRes::RFault(f),
        }
    }
}

/// Whether a call into the interpreter came back as the run from `s`
/// says it must: the returned value, the suspended request and its
/// state, or a matching fault.
pub open spec fn reflects_run(
    r: Result<Outcome, ExecutionError>,
    post: Interpreter,
    code: Seq<u8>,
    rt: Type,
    max: nat,
    s: VmState,
) -> bool {
    let outcome = run_spec(code, rt, max, s, u64::MAX as nat);
    match r {
        Ok(Outcome::Returned(v)) => outcome == RunRes::RDone(v),
        Ok(Outcome::FloatRequest(req)) => (outcome matches RunRes::RRequest(st, req2) && req2
            == req && interp_state(post) == st),
        Err(e) => (outcome matches RunRes::RFault(f) && fault_matches(e, f, rt)),
    }
}

/// The signed 16-bit value read from two big-endian bytes.
pub open spec fn be_i16(hi: u8, lo: u8) -> i16 {
    (((hi as u16) << 8) | (lo as u16)) as i16
}

impl Interpreter {
    /// Pops an int and pushes its two's-complement negation.
    pub fn ineg(&mut self) -> (r: Result<i32, ExecutionError>)
        ensures
            frame_except_stack(final(self).frame, old(self).frame),
            final(self).pending == old(self).pending,
            ({
                let s0 = old(self).frame.operand_stack.stack@;
                let a = i32_of_bits(stack_top32(s0));
                match r {
                    Ok(v) => {
                        &&& s0.len() >= 4
                        &&& s0.len() <= old(self).frame.operand_stack.max_depth
                        &&& v == i32_specs::wrapping_sub(0i32, a)
                        &&& final(self).frame.operand_stack.stack@ == stack_drop32(s0) + be32(
                            bits_of_i32(v),
                        )
                    },
                    Err(e) => match e {
                        ExecutionError::StackUnderflow => s0.len() < 4 && final(self).frame.operand_stack.stack@ == s0,
                        ExecutionError::StackOverflow => s0.len() >= 4 && s0.len() > old(self).frame.operand_stack.max_depth && final(self).frame.operand_stack.stack@
                            == stack_drop32(s0),
                        _ => false,
                    },
                }
            }),
    {
        let a = self.ipop()?;
        let v = 0i32.wrapping_sub(a);
        self.ipush(v)?;
        Ok(v)
    }

    /// Pops a long and pushes its two's-complement negation.
    pub fn lneg(&mut self) -> (r: Result<i64, ExecutionError>)
        ensures
            frame_except_stack(final(self).frame, old(self).frame),
            final(self).pending == old(self).pending,
            ({
                let s0 = old(self).frame.operand_stack.stack@;
                let a = i64_of_bits(stack_top64(s0));
                match r {
                    Ok(v) => {
                        &&& s0.len() >= 8
                        &&& s0.len() <= old(self).frame.operand_stack.max_depth
                        &&& v == i64_specs::wrapping_sub(0i64, a)
                        &&& final(self).frame.operand_stack.stack@ == stack_drop64(s0) + be64(
                            bits_of_i64(v),
                        )
                    },
                    Err(e) => match e {
                        ExecutionError::StackUnderflow => s0.len() < 8 && final(self).frame.operand_stack.stack@ == s0,
                        ExecutionError::StackOverflow => s0.len() >= 8 && s0.len() > old(self).frame.operand_stack.max_depth && final(self).frame.operand_stack.stack@
                            == stack_drop64(s0),
                        _ => false,
                    },
                }
            }),
    {
        let a = self.lpop()?;
        let v = 0i64.wrapping_sub(a);
        self.lpush(v)?;
        Ok(v)
    }

    /// Pops a float's bits and pushes them with the sign flipped:
    /// IEEE-754 negation.
    pub fn fneg(&mut self) -> (r: Result<(), ExecutionError>)
        ensures
            frame_except_stack(final(self).frame, old(self).frame),
            final(self).pending == old(self).pending,
            ({
                let s0 = old(self).frame.operand_stack.stack@;
                match r {
                    Ok(()) => {
                        &&& s0.len() >= 4
                        &&& s0.len() <= old(self).frame.operand_stack.max_depth
                        &&& final(self).frame.operand_stack.stack@ == stack_drop32(s0) + be32(
                            stack_top32(s0) ^ 0x80000000u32,
                        )
                    },
                    Err(e) => match e {
                        ExecutionError::StackUnderflow => s0.len() < 4 && final(self).frame.operand_stack.stack@ == s0,
                        ExecutionError::StackOverflow => s0.len() >= 4 && s0.len() > old(self).frame.operand_stack.max_depth && final(self).frame.operand_stack.stack@
                            == stack_drop32(s0),
                        _ => false,
                    },
                }
            }),
    {
        let a = self.fpop()?;
        self.fpush(crate::vm::fp::float_bits_neg(a))?;
        Ok(())
    }

    /// Pops a double's bits and pushes them with the sign flipped.
    pub fn dneg(&mut self) -> (r: Result<(), ExecutionError>)
        ensures
            frame_except_stack(final(self).frame, old(self).frame),
            final(self).pending == old(self).pending,
            ({
                let s0 = old(self).frame.operand_stack.stack@;
                match r {
                    Ok(()) => {
                        &&& s0.len() >= 8
                        &&& s0.len() <= old(self).frame.operand_stack.max_depth
                        &&& final(self).frame.operand_stack.stack@ == stack_drop64(s0) + be64(
                            stack_top64(s0) ^ 0x8000000000000000u64,
                        )
                    },
                    Err(e) => match e {
                        ExecutionError::StackUnderflow => s0.len() < 8 && final(self).frame.operand_stack.stack@ == s0,
                        ExecutionError::StackOverflow => s0.len() >= 8 && s0.len() > old(self).frame.operand_stack.max_depth && final(self).frame.operand_stack.stack@
                            == stack_drop64(s0),
                        _ => false,
                    },
                }
            }),
    {
        let a = self.dpop()?;
        self.dpush(crate::vm::fp::double_bits_neg(a))?;
        Ok(())
    }

    /// Pops value 2 (the top of the stack) and then value 1, and
    /// pushes their three-way comparison (JVMS 6.5, lcmp): 1 when
    /// value 1 is greater, minus 1 when smaller, else 0.
    pub fn lcmp(&mut self) -> (r: Result<i32, ExecutionError>)
        ensures
            frame_except_stack(final(self).frame, old(self).frame),
            final(self).pending == old(self).pending,
            ({
                let s0 = old(self).frame.operand_stack.stack@;
                let value2 = i64_of_bits(stack_top64(s0));
                let value1 = i64_of_bits(stack_top64(stack_drop64(s0)));
                match r {
                    Ok(v) => {
                        &&& s0.len() >= 16
                        &&& s0.len() - 12 <= old(self).frame.operand_stack.max_depth
                        &&& v == (if value1 > value2 {
                            1i32
                        } else if value1 < value2 {
                            -1i32
                        } else {
                            0i32
                        })
                        &&& final(self).frame.operand_stack.stack@ == stack_drop64(
                            stack_drop64(s0),
                        ) + be32(bits_of_i32(v))
                    },
                    Err(e) => match e {
                        ExecutionError::StackUnderflow => s0.len() < 16 && final(self).frame.operand_stack.stack@ == s0,
                        ExecutionError::StackOverflow => {
                            &&& s0.len() >= 16
                            &&& s0.len() - 16 + 4 > old(self).frame.operand_stack.max_depth
                            &&& final(self).frame.operand_stack.stack@ == stack_drop64(
                                stack_drop64(s0),
                            )
                        },
                        _ => false,
                    },
                }
            }),
    {
        if self.frame.operand_stack.stack.len() < 16 {
            return Err(ExecutionError::StackUnderflow);
        }
        let value2 = self.lpop()?;
        let value1 = self.lpop()?;
        let v: i32 = if value1 > value2 {
            1
        } else if value1 < value2 {
            -1
        } else {
            0
        };
        self.ipush(v)?;
        Ok(v)
    }

    /// Pops value 2's bits (the top of the stack) and then value 1's,
    /// and pushes their NaN-aware comparison of value 1 against value
    /// 2: `nan_result` on any NaN operand, else 1, minus 1 or 0 (JVMS
    /// 6.5, fcmpg with 1 and fcmpl with minus 1).
    pub fn fcmp(&mut self, nan_result: i32) -> (r: Result<i32, ExecutionError>)
        ensures
            frame_except_stack(final(self).frame, old(self).frame),
            final(self).pending == old(self).pending,
            ({
                let s0 = old(self).frame.operand_stack.stack@;
                let value2 = stack_top32(s0);
                let value1 = stack_top32(stack_drop32(s0));
                match r {
                    Ok(v) => {
                        &&& s0.len() >= 8
                        &&& s0.len() - 4 <= old(self).frame.operand_stack.max_depth
                        &&& v == float_cmp(value1, value2, nan_result)
                        &&& final(self).frame.operand_stack.stack@ == stack_drop32(
                            stack_drop32(s0),
                        ) + be32(bits_of_i32(v))
                    },
                    Err(e) => match e {
                        ExecutionError::StackUnderflow => s0.len() < 8 && final(self).frame.operand_stack.stack@ == s0,
                        ExecutionError::StackOverflow => {
                            &&& s0.len() >= 8
                            &&& s0.len() - 8 + 4 > old(self).frame.operand_stack.max_depth
                            &&& final(self).frame.operand_stack.stack@ == stack_drop32(
                                stack_drop32(s0),
                            )
                        },
                        _ => false,
                    },
                }
            }),
    {
        if self.frame.operand_stack.stack.len() < 8 {
            return Err(ExecutionError::StackUnderflow);
        }
        let value2 = self.fpop()?;
        let value1 = self.fpop()?;
        let v = crate::vm::fp::float_bits_cmp(value1, value2, nan_result);
        self.ipush(v)?;
        Ok(v)
    }

    /// Pops value 2's bits and then value 1's, and pushes their
    /// NaN-aware comparison of value 1 against value 2 (JVMS 6.5,
    /// dcmpg and dcmpl).
    pub fn dcmp(&mut self, nan_result: i32) -> (r: Result<i32, ExecutionError>)
        ensures
            frame_except_stack(final(self).frame, old(self).frame),
            final(self).pending == old(self).pending,
            ({
                let s0 = old(self).frame.operand_stack.stack@;
                let value2 = stack_top64(s0);
                let value1 = stack_top64(stack_drop64(s0));
                match r {
                    Ok(v) => {
                        &&& s0.len() >= 16
                        &&& s0.len() - 12 <= old(self).frame.operand_stack.max_depth
                        &&& v == double_cmp(value1, value2, nan_result)
                        &&& final(self).frame.operand_stack.stack@ == stack_drop64(
                            stack_drop64(s0),
                        ) + be32(bits_of_i32(v))
                    },
                    Err(e) => match e {
                        ExecutionError::StackUnderflow => s0.len() < 16 && final(self).frame.operand_stack.stack@ == s0,
                        ExecutionError::StackOverflow => {
                            &&& s0.len() >= 16
                            &&& s0.len() - 16 + 4 > old(self).frame.operand_stack.max_depth
                            &&& final(self).frame.operand_stack.stack@ == stack_drop64(
                                stack_drop64(s0),
                            )
                        },
                        _ => false,
                    },
                }
            }),
    {
        if self.frame.operand_stack.stack.len() < 16 {
            return Err(ExecutionError::StackUnderflow);
        }
        let value2 = self.dpop()?;
        let value1 = self.dpop()?;
        let v = crate::vm::fp::double_bits_cmp(value1, value2, nan_result);
        self.ipush(v)?;
        Ok(v)
    }
}

impl Interpreter {
    /// Pops value 2 (the top of the stack) and then value 1, and
    /// branches on value 1 compared against value 2: on taken, the
    /// program counter is
    /// set to the branch opcode's address plus the signed 16-bit
    /// offset that follows it; on not taken, it advances past the two
    /// offset bytes. A taken branch whose target leaves
    /// `[0, code length]` fails with `JumpOutOfBounds`. The counter
    /// must stand just after the opcode byte.
    pub fn branch_cmp(&mut self, cond: Cond) -> (r: Result<(), ExecutionError>)
        requires
            old(self).frame.code@.len() <= 0xFFFF_FFFF,
            old(self).frame.pc >= 1,
        ensures
            frame_except_stack_pc(final(self).frame, old(self).frame),
            final(self).pending == old(self).pending,
            ({
                let s0 = old(self).frame.operand_stack.stack@;
                let code = old(self).frame.code@;
                let pc0 = old(self).frame.pc as int;
                let value2 = i32_of_bits(stack_top32(s0));
                let value1 = i32_of_bits(stack_top32(stack_drop32(s0)));
                let target = pc0 - 1 + be_i16(code[pc0], code[pc0 + 1]);
                match r {
                    Ok(()) => {
                        &&& pc0 + 2 <= code.len()
                        &&& s0.len() >= 8
                        &&& final(self).frame.operand_stack.stack@ == stack_drop32(
                            stack_drop32(s0),
                        )
                        &&& if cond_holds(cond, value1, value2) {
                            0 <= target <= code.len() && final(self).frame.pc == target
                        } else {
                            final(self).frame.pc == pc0 + 2
                        }
                    },
                    Err(e) => match e {
                        ExecutionError::EndOfCode(p) => {
                            &&& p == old(self).frame.pc
                            &&& pc0 + 2 > code.len()
                            &&& final(self).frame.operand_stack.stack@ == s0
                            &&& final(self).frame.pc == pc0
                        },
                        ExecutionError::StackUnderflow => {
                            &&& pc0 + 2 <= code.len()
                            &&& s0.len() < 8
                            &&& final(self).frame.operand_stack.stack@ == s0
                            &&& final(self).frame.pc == pc0
                        },
                        ExecutionError::JumpOutOfBounds(t, l) => {
                            &&& pc0 + 2 <= code.len()
                            &&& s0.len() >= 8
                            &&& cond_holds(cond, value1, value2)
                            &&& !(0 <= target <= code.len())
                            &&& t == target
                            &&& l == code.len()
                            &&& final(self).frame.operand_stack.stack@ == stack_drop32(
                                stack_drop32(s0),
                            )
                            &&& final(self).frame.pc == (if 0 <= target <= 0xFFFF_FFFF {
                                target
                            } else {
                                pc0
                            })
                        },
                        _ => false,
                    },
                }
            }),
    {
        let pc = self.frame.pc;
        if self.frame.code.len() < 2 || (pc as usize) > self.frame.code.len() - 2 {
            return Err(ExecutionError::EndOfCode(pc));
        }
        if self.frame.operand_stack.stack.len() < 8 {
            return Err(ExecutionError::StackUnderflow);
        }
        let hi = self.frame.code[pc as usize];
        let lo = self.frame.code[(pc as usize) + 1];
        let value2 = self.ipop()?;
        let value1 = self.ipop()?;
        let offset: i16 = #[verifier::truncate] ((((hi as u16) << 8) | (lo as u16)) as i16);
        let taken = match cond {
            Cond::Eq => value1 == value2,
            Cond::Ne => value1 != value2,
            Cond::Lt => value1 < value2,
            Cond::Ge => value1 >= value2,
            Cond::Gt => value1 > value2,
            Cond::Le => value1 <= value2,
        };
        self.finish_branch(taken, pc, offset)
    }

    /// Pops one int and branches on its comparison against zero, with
    /// the offset handling of [`Interpreter::branch_cmp`].
    pub fn branch_zero(&mut self, cond: Cond) -> (r: Result<(), ExecutionError>)
        requires
            old(self).frame.code@.len() <= 0xFFFF_FFFF,
            old(self).frame.pc >= 1,
        ensures
            frame_except_stack_pc(final(self).frame, old(self).frame),
            final(self).pending == old(self).pending,
            ({
                let s0 = old(self).frame.operand_stack.stack@;
                let code = old(self).frame.code@;
                let pc0 = old(self).frame.pc as int;
                let a = i32_of_bits(stack_top32(s0));
                let target = pc0 - 1 + be_i16(code[pc0], code[pc0 + 1]);
                match r {
                    Ok(()) => {
                        &&& pc0 + 2 <= code.len()
                        &&& s0.len() >= 4
                        &&& final(self).frame.operand_stack.stack@ == stack_drop32(s0)
                        &&& if cond_holds(cond, a, 0) {
                            0 <= target <= code.len() && final(self).frame.pc == target
                        } else {
                            final(self).frame.pc == pc0 + 2
                        }
                    },
                    Err(e) => match e {
                        ExecutionError::EndOfCode(p) => {
                            &&& p == old(self).frame.pc
                            &&& pc0 + 2 > code.len()
                            &&& final(self).frame.operand_stack.stack@ == s0
                            &&& final(self).frame.pc == pc0
                        },
                        ExecutionError::StackUnderflow => {
                            &&& pc0 + 2 <= code.len()
                            &&& s0.len() < 4
                            &&& final(self).frame.operand_stack.stack@ == s0
                            &&& final(self).frame.pc == pc0
                        },
                        ExecutionError::JumpOutOfBounds(t, l) => {
                            &&& pc0 + 2 <= code.len()
                            &&& s0.len() >= 4
                            &&& cond_holds(cond, a, 0)
                            &&& !(0 <= target <= code.len())
                            &&& t == target
                            &&& l == code.len()
                            &&& final(self).frame.operand_stack.stack@ == stack_drop32(s0)
                            &&& final(self).frame.pc == (if 0 <= target <= 0xFFFF_FFFF {
                                target
                            } else {
                                pc0
                            })
                        },
                        _ => false,
                    },
                }
            }),
    {
        let pc = self.frame.pc;
        if self.frame.code.len() < 2 || (pc as usize) > self.frame.code.len() - 2 {
            return Err(ExecutionError::EndOfCode(pc));
        }
        if self.frame.operand_stack.stack.len() < 4 {
            return Err(ExecutionError::StackUnderflow);
        }
        let hi = self.frame.code[pc as usize];
        let lo = self.frame.code[(pc as usize) + 1];
        let a = self.ipop()?;
        let offset: i16 = #[verifier::truncate] ((((hi as u16) << 8) | (lo as u16)) as i16);
        let taken = match cond {
            Cond::Eq => a == 0,
            Cond::Ne => a != 0,
            Cond::Lt => a < 0,
            Cond::Ge => a >= 0,
            Cond::Gt => a > 0,
            Cond::Le => a <= 0,
        };
        self.finish_branch(taken, pc, offset)
    }

    /// Branches unconditionally: the program counter is set to the
    /// goto opcode's address plus the signed 16-bit offset following
    /// it, with the bounds handling of [`Interpreter::branch_cmp`].
    pub fn do_goto(&mut self) -> (r: Result<(), ExecutionError>)
        requires
            old(self).frame.code@.len() <= 0xFFFF_FFFF,
            old(self).frame.pc >= 1,
        ensures
            frame_except_stack_pc(final(self).frame, old(self).frame),
            final(self).frame.operand_stack == old(self).frame.operand_stack,
            final(self).pending == old(self).pending,
            ({
                let code = old(self).frame.code@;
                let pc0 = old(self).frame.pc as int;
                let target = pc0 - 1 + be_i16(code[pc0], code[pc0 + 1]);
                match r {
                    Ok(()) => {
                        &&& pc0 + 2 <= code.len()
                        &&& 0 <= target <= code.len()
                        &&& final(self).frame.pc == target
                    },
                    Err(e) => match e {
                        ExecutionError::EndOfCode(p) => {
                            &&& p == old(self).frame.pc
                            &&& pc0 + 2 > code.len()
                            &&& final(self).frame.pc == pc0
                        },
                        ExecutionError::JumpOutOfBounds(t, l) => {
                            &&& pc0 + 2 <= code.len()
                            &&& !(0 <= target <= code.len())
                            &&& t == target
                            &&& l == code.len()
                            &&& final(self).frame.pc == (if 0 <= target <= 0xFFFF_FFFF {
                                target
                            } else {
                                pc0
                            })
                        },
                        _ => false,
                    },
                }
            }),
    {
        let pc = self.frame.pc;
        if self.frame.code.len() < 2 || (pc as usize) > self.frame.code.len() - 2 {
            return Err(ExecutionError::EndOfCode(pc));
        }
        let hi = self.frame.code[pc as usize];
        let lo = self.frame.code[(pc as usize) + 1];
        let offset: i16 = #[verifier::truncate] ((((hi as u16) << 8) | (lo as u16)) as i16);
        self.finish_branch(true, pc, offset)
    }

    /// Applies a branch decision: sets the program counter to the
    /// target or past the offset bytes, checking the jump bounds.
    fn finish_branch(&mut self, taken: bool, pc: u32, offset: i16) -> (r: Result<
        (),
        ExecutionError,
    >)
        requires
            old(self).frame.code@.len() <= 0xFFFF_FFFF,
            pc >= 1,
            pc + 2 <= old(self).frame.code@.len(),
            old(self).frame.pc == pc,
        ensures
            frame_except_stack_pc(final(self).frame, old(self).frame),
            final(self).frame.operand_stack == old(self).frame.operand_stack,
            final(self).pending == old(self).pending,
            ({
                let code = old(self).frame.code@;
                let pc0 = pc as int;
                let target = pc0 - 1 + offset;
                match r {
                    Ok(()) => if taken {
                        0 <= target <= code.len() && final(self).frame.pc == target
                    } else {
                        final(self).frame.pc == pc0 + 2
                    },
                    Err(e) => match e {
                        ExecutionError::JumpOutOfBounds(t, l) => {
                            &&& taken
                            &&& !(0 <= target <= code.len())
                            &&& t == target
                            &&& l == code.len()
                            &&& final(self).frame.pc == (if 0 <= target <= 0xFFFF_FFFF {
                                target
                            } else {
                                pc0
                            })
                        },
                        _ => false,
                    },
                }
            }),
    {
        if taken {
            let target: i64 = pc as i64 - 1 + offset as i64;
            let len: i64 = #[verifier::truncate] (self.frame.code.len() as i64);
            if 0 <= target && target <= len {
                self.frame.pc = #[verifier::truncate] (target as u32);
                proof {
                    let p = self.frame.pc;
                    assert(p == target) by (bit_vector)
                        requires
                            p == target as u32,
                            0 <= target <= 0xFFFF_FFFFi64,
                    ;
                }
                Ok(())
            } else {
                if 0 <= target && target <= 0xFFFF_FFFF {
                    self.frame.pc = #[verifier::truncate] (target as u32);
                    proof {
                        let p = self.frame.pc;
                        assert(p == target) by (bit_vector)
                            requires
                                p == target as u32,
                                0 <= target <= 0xFFFF_FFFFi64,
                        ;
                    }
                }
                Err(ExecutionError::JumpOutOfBounds(target, self.frame.code.len()))
            }
        } else {
            self.frame.pc = pc + 2;
            Ok(())
        }
    }
}

impl Interpreter {
    /// Loads the `Int` local at `index` and pushes it.
    pub fn iload(&mut self, index: u16) -> (r: Result<Int, ExecutionError>)
        ensures
            frame_except_stack(final(self).frame, old(self).frame),
            final(self).pending == old(self).pending,
            ({
                let locals = old(self).frame.locals.variables@;
                let s0 = old(self).frame.operand_stack.stack@;
                match r {
                    Ok(local) => {
                        &&& local_at(locals, index) == Some(Variable::Int(local))
                        &&& s0.len() + 4 <= old(self).frame.operand_stack.max_depth
                        &&& final(self).frame.operand_stack.stack@ == s0 + be32(bits_of_i32(local.value))
                    },
                    Err(e) => match e {
                        ExecutionError::Local(le) => {
                            &&& final(self).frame.operand_stack.stack@ == s0
                            &&& match le {
                                LookupError::BadIndex(ie) => ie.index == index && local_at(
                                    locals,
                                    index,
                                ) is None,
                                LookupError::WrongType(te) => {
                                    &&& local_at(locals, index) matches Some(stored)
                                    &&& !(stored is Int)
                                    &&& te.wanted_type@ == "Int"@
                                    &&& te.actual_type@ == crate::vm::types::variable_kind_name(
                                        stored,
                                    )
                                },
                            }
                        },
                        ExecutionError::StackOverflow => {
                            &&& local_at(locals, index) matches Some(stored) && stored is Int
                            &&& s0.len() + 4 > old(self).frame.operand_stack.max_depth
                            &&& final(self).frame.operand_stack.stack@ == s0
                        },
                        _ => false,
                    },
                }
            }),
    {
        match self.frame.locals.get_int(index) {
            Ok(local) => {
                self.ipush(local.value)?;
                Ok(local)
            },
            Err(e) => Err(ExecutionError::Local(e)),
        }
    }

    /// Loads the `Long` local at `index` and pushes it.
    pub fn lload(&mut self, index: u16) -> (r: Result<Long, ExecutionError>)
        ensures
            frame_except_stack(final(self).frame, old(self).frame),
            final(self).pending == old(self).pending,
            ({
                let locals = old(self).frame.locals.variables@;
                let s0 = old(self).frame.operand_stack.stack@;
                match r {
                    Ok(local) => {
                        &&& local_at(locals, index) == Some(Variable::Long(local))
                        &&& s0.len() + 8 <= old(self).frame.operand_stack.max_depth
                        &&& final(self).frame.operand_stack.stack@ == s0 + be64(bits_of_i64(local.value))
                    },
                    Err(e) => match e {
                        ExecutionError::Local(le) => {
                            &&& final(self).frame.operand_stack.stack@ == s0
                            &&& match le {
                                LookupError::BadIndex(ie) => ie.index == index && local_at(
                                    locals,
                                    index,
                                ) is None,
                                LookupError::WrongType(te) => {
                                    &&& local_at(locals, index) matches Some(stored)
                                    &&& !(stored is Long)
                                    &&& te.wanted_type@ == "Long"@
                                    &&& te.actual_type@ == crate::vm::types::variable_kind_name(
                                        stored,
                                    )
                                },
                            }
                        },
                        ExecutionError::StackOverflow => {
                            &&& local_at(locals, index) matches Some(stored) && stored is Long
                            &&& s0.len() + 8 > old(self).frame.operand_stack.max_depth
                            &&& final(self).frame.operand_stack.stack@ == s0
                        },
                        _ => false,
                    },
                }
            }),
    {
        match self.frame.locals.get_long(index) {
            Ok(local) => {
                self.lpush(local.value)?;
                Ok(local)
            },
            Err(e) => Err(ExecutionError::Local(e)),
        }
    }

    /// Loads the `Float` local at `index` and pushes it.
    pub fn fload(&mut self, index: u16) -> (r: Result<Float, ExecutionError>)
        ensures
            frame_except_stack(final(self).frame, old(self).frame),
            final(self).pending == old(self).pending,
            ({
                let locals = old(self).frame.locals.variables@;
                let s0 = old(self).frame.operand_stack.stack@;
                match r {
                    Ok(local) => {
                        &&& local_at(locals, index) == Some(Variable::Float(local))
                        &&& s0.len() + 4 <= old(self).frame.operand_stack.max_depth
                        &&& final(self).frame.operand_stack.stack@ == s0 + be32(local.bits)
                    },
                    Err(e) => match e {
                        ExecutionError::Local(le) => {
                            &&& final(self).frame.operand_stack.stack@ == s0
                            &&& match le {
                                LookupError::BadIndex(ie) => ie.index == index && local_at(
                                    locals,
                                    index,
                                ) is None,
                                LookupError::WrongType(te) => {
                                    &&& local_at(locals, index) matches Some(stored)
                                    &&& !(stored is Float)
                                    &&& te.wanted_type@ == "Float"@
                                    &&& te.actual_type@ == crate::vm::types::variable_kind_name(
                                        stored,
                                    )
                                },
                            }
                        },
                        ExecutionError::StackOverflow => {
                            &&& local_at(locals, index) matches Some(stored) && stored is Float
                            &&& s0.len() + 4 > old(self).frame.operand_stack.max_depth
                            &&& final(self).frame.operand_stack.stack@ == s0
                        },
                        _ => false,
                    },
                }
            }),
    {
        match self.frame.locals.get_float(index) {
            Ok(local) => {
                self.fpush(local.bits)?;
                Ok(local)
            },
            Err(e) => Err(ExecutionError::Local(e)),
        }
    }

    /// Loads the `Double` local at `index` and pushes it.
    pub fn dload(&mut self, index: u16) -> (r: Result<Double, ExecutionError>)
        ensures
            frame_except_stack(final(self).frame, old(self).frame),
            final(self).pending == old(self).pending,
            ({
                let locals = old(self).frame.locals.variables@;
                let s0 = old(self).frame.operand_stack.stack@;
                match r {
                    Ok(local) => {
                        &&& local_at(locals, index) == Some(Variable::Double(local))
                        &&& s0.len() + 8 <= old(self).frame.operand_stack.max_depth
                        &&& final(self).frame.operand_stack.stack@ == s0 + be64(local.bits)
                    },
                    Err(e) => match e {
                        ExecutionError::Local(le) => {
                            &&& final(self).frame.operand_stack.stack@ == s0
                            &&& match le {
                                LookupError::BadIndex(ie) => ie.index == index && local_at(
                                    locals,
                                    index,
                                ) is None,
                                LookupError::WrongType(te) => {
                                    &&& local_at(locals, index) matches Some(stored)
                                    &&& !(stored is Double)
                                    &&& te.wanted_type@ == "Double"@
                                    &&& te.actual_type@ == crate::vm::types::variable_kind_name(
                                        stored,
                                    )
                                },
                            }
                        },
                        ExecutionError::StackOverflow => {
                            &&& local_at(locals, index) matches Some(stored) && stored is Double
                            &&& s0.len() + 8 > old(self).frame.operand_stack.max_depth
                            &&& final(self).frame.operand_stack.stack@ == s0
                        },
                        _ => false,
                    },
                }
            }),
    {
        match self.frame.locals.get_double(index) {
            Ok(local) => {
                self.dpush(local.bits)?;
                Ok(local)
            },
            Err(e) => Err(ExecutionError::Local(e)),
        }
    }

    /// Stores a popped-off `Int` into the local slot at `index`,
    /// which for a category-2 value also reserves the following slot.
    pub fn istore(&mut self, index: u16, value: i32)
        ensures
            frame_except_locals(final(self).frame, old(self).frame),
            final(self).pending == old(self).pending,
            final(self).frame.locals.variables@ == locals_set(
                old(self).frame.locals.variables@,
                index,
                Variable::Int(Int { value }),
            ),
    {
        self.frame.locals.set(index, Variable::Int(Int { value }));
    }

    /// Stores a popped-off `Long` into the local slot at `index`,
    /// which for a category-2 value also reserves the following slot.
    pub fn lstore(&mut self, index: u16, value: i64)
        ensures
            frame_except_locals(final(self).frame, old(self).frame),
            final(self).pending == old(self).pending,
            final(self).frame.locals.variables@ == locals_set(
                old(self).frame.locals.variables@,
                index,
                Variable::Long(Long { value }),
            ),
    {
        self.frame.locals.set(index, Variable::Long(Long { value }));
    }

    /// Stores a popped-off `Float` into the local slot at `index`,
    /// which for a category-2 value also reserves the following slot.
    pub fn fstore(&mut self, index: u16, bits: u32)
        ensures
            frame_except_locals(final(self).frame, old(self).frame),
            final(self).pending == old(self).pending,
            final(self).frame.locals.variables@ == locals_set(
                old(self).frame.locals.variables@,
                index,
                Variable::Float(Float { bits }),
            ),
    {
        self.frame.locals.set(index, Variable::Float(Float { bits }));
    }

    /// Stores a popped-off `Double` into the local slot at `index`,
    /// which for a category-2 value also reserves the following slot.
    pub fn dstore(&mut self, index: u16, bits: u64)
        ensures
            frame_except_locals(final(self).frame, old(self).frame),
            final(self).pending == old(self).pending,
            final(self).frame.locals.variables@ == locals_set(
                old(self).frame.locals.variables@,
                index,
                Variable::Double(Double { bits }),
            ),
    {
        self.frame.locals.set(index, Variable::Double(Double { bits }));
    }

    /// Widens the int on top of the stack to a long, sign-extending.
    pub fn conv_i2l(&mut self) -> (r: Result<(), ExecutionError>)
        ensures
            frame_except_stack(final(self).frame, old(self).frame),
            final(self).pending == old(self).pending,
            ({
                let s0 = old(self).frame.operand_stack.stack@;
                let a = i32_of_bits(stack_top32(s0));
                match r {
                    Ok(()) => {
                        &&& s0.len() >= 4
                        &&& s0.len() + 4 <= old(self).frame.operand_stack.max_depth
                        &&& final(self).frame.operand_stack.stack@ == stack_drop32(s0) + be64(
                            bits_of_i64(a as i64),
                        )
                    },
                    Err(e) => match e {
                        ExecutionError::StackUnderflow => s0.len() < 4 && final(self).frame.operand_stack.stack@ == s0,
                        ExecutionError::StackOverflow => {
                            &&& s0.len() >= 4
                            &&& s0.len() - 4 + 8 > old(self).frame.operand_stack.max_depth
                            &&& final(self).frame.operand_stack.stack@ == stack_drop32(s0)
                        },
                        _ => false,
                    },
                }
            }),
    {
        let a = self.ipop()?;
        self.lpush(a as i64)?;
        Ok(())
    }

    /// Narrows the long on top of the stack to an int: the low 32
    /// bits.
    pub fn conv_l2i(&mut self) -> (r: Result<(), ExecutionError>)
        ensures
            frame_except_stack(final(self).frame, old(self).frame),
            final(self).pending == old(self).pending,
            ({
                let s0 = old(self).frame.operand_stack.stack@;
                let a = i64_of_bits(stack_top64(s0));
                match r {
                    Ok(()) => {
                        &&& s0.len() >= 8
                        &&& s0.len() - 4 <= old(self).frame.operand_stack.max_depth
                        &&& final(self).frame.operand_stack.stack@ == stack_drop64(s0) + be32(
                            bits_of_i32(a as i32),
                        )
                    },
                    Err(e) => match e {
                        ExecutionError::StackUnderflow => s0.len() < 8 && final(self).frame.operand_stack.stack@ == s0,
                        ExecutionError::StackOverflow => {
                            &&& s0.len() >= 8
                            &&& s0.len() - 8 + 4 > old(self).frame.operand_stack.max_depth
                            &&& final(self).frame.operand_stack.stack@ == stack_drop64(s0)
                        },
                        _ => false,
                    },
                }
            }),
    {
        let a = self.lpop()?;
        self.ipush(#[verifier::truncate] (a as i32))?;
        Ok(())
    }

    /// Narrows the int on top of the stack to a byte and
    /// sign-extends it back to an int (JVMS 6.5, i2b).
    pub fn conv_i2b(&mut self) -> (r: Result<i32, ExecutionError>)
        ensures
            frame_except_stack(final(self).frame, old(self).frame),
            final(self).pending == old(self).pending,
            ({
                let s0 = old(self).frame.operand_stack.stack@;
                let a = i32_of_bits(stack_top32(s0));
                match r {
                    Ok(v) => {
                        &&& s0.len() >= 4
                        &&& s0.len() <= old(self).frame.operand_stack.max_depth
                        &&& v == (a as i8) as i32
                        &&& final(self).frame.operand_stack.stack@ == stack_drop32(s0) + be32(
                            bits_of_i32(v),
                        )
                    },
                    Err(e) => match e {
                        ExecutionError::StackUnderflow => s0.len() < 4 && final(self).frame.operand_stack.stack@ == s0,
                        ExecutionError::StackOverflow => {
                            &&& s0.len() >= 4
                            &&& s0.len() > old(self).frame.operand_stack.max_depth
                            &&& final(self).frame.operand_stack.stack@ == stack_drop32(s0)
                        },
                        _ => false,
                    },
                }
            }),
    {
        let a = self.ipop()?;
        let v = (#[verifier::truncate] (a as i8)) as i32;
        self.ipush(v)?;
        Ok(v)
    }

    /// Narrows the int on top of the stack to a char and
    /// zero-extends it back to an int (JVMS 6.5, i2c).
    pub fn conv_i2c(&mut self) -> (r: Result<i32, ExecutionError>)
        ensures
            frame_except_stack(final(self).frame, old(self).frame),
            final(self).pending == old(self).pending,
            ({
                let s0 = old(self).frame.operand_stack.stack@;
                let a = i32_of_bits(stack_top32(s0));
                match r {
                    Ok(v) => {
                        &&& s0.len() >= 4
                        &&& s0.len() <= old(self).frame.operand_stack.max_depth
                        &&& v == ((stack_top32(s0) & 0xFFFF) as i32)
                        &&& final(self).frame.operand_stack.stack@ == stack_drop32(s0) + be32(
                            bits_of_i32(v),
                        )
                    },
                    Err(e) => match e {
                        ExecutionError::StackUnderflow => s0.len() < 4 && final(self).frame.operand_stack.stack@ == s0,
                        ExecutionError::StackOverflow => {
                            &&& s0.len() >= 4
                            &&& s0.len() > old(self).frame.operand_stack.max_depth
                            &&& final(self).frame.operand_stack.stack@ == stack_drop32(s0)
                        },
                        _ => false,
                    },
                }
            }),
    {
        let ghost top = stack_top32(self.frame.operand_stack.stack@);
        let a = self.ipop()?;
        let ua: u32 = (#[verifier::truncate] (a as u32)) & 0xFFFF;
        proof {
            assert(ua <= 0xFFFF) by (bit_vector)
                requires ua == (a as u32) & 0xFFFF;
            assert(((top as i32) as u32) == top) by (bit_vector);
        }
        let v = ua as i32;
        self.ipush(v)?;
        Ok(v)
    }

    /// Narrows the int on top of the stack to a short and
    /// sign-extends it back to an int (JVMS 6.5, i2s).
    pub fn conv_i2s(&mut self) -> (r: Result<i32, ExecutionError>)
        ensures
            frame_except_stack(final(self).frame, old(self).frame),
            final(self).pending == old(self).pending,
            ({
                let s0 = old(self).frame.operand_stack.stack@;
                let a = i32_of_bits(stack_top32(s0));
                match r {
                    Ok(v) => {
                        &&& s0.len() >= 4
                        &&& s0.len() <= old(self).frame.operand_stack.max_depth
                        &&& v == (a as i16) as i32
                        &&& final(self).frame.operand_stack.stack@ == stack_drop32(s0) + be32(
                            bits_of_i32(v),
                        )
                    },
                    Err(e) => match e {
                        ExecutionError::StackUnderflow => s0.len() < 4 && final(self).frame.operand_stack.stack@ == s0,
                        ExecutionError::StackOverflow => {
                            &&& s0.len() >= 4
                            &&& s0.len() > old(self).frame.operand_stack.max_depth
                            &&& final(self).frame.operand_stack.stack@ == stack_drop32(s0)
                        },
                        _ => false,
                    },
                }
            }),
    {
        let a = self.ipop()?;
        let v = (#[verifier::truncate] (a as i16)) as i32;
        self.ipush(v)?;
        Ok(v)
    }

    /// Terminates execution with the `Int` on top of the stack,
    /// checking that the frame's declared return type is `I`.
    pub fn ireturn(&mut self) -> (r: Result<Variable, ExecutionError>)
        ensures
            frame_except_stack(final(self).frame, old(self).frame),
            final(self).pending == old(self).pending,
            ({
                let s0 = old(self).frame.operand_stack.stack@;
                match r {
                    Ok(v) => {
                        &&& old(self).frame.return_type is I
                        &&& s0.len() >= 4
                        &&& v == Variable::Int(Int { value: i32_of_bits(stack_top32(s0)) })
                        &&& final(self).frame.operand_stack.stack@ == stack_drop32(s0)
                    },
                    Err(e) => match e {
                        ExecutionError::BadReturnType(expected, actual) => {
                            &&& !(old(self).frame.return_type is I)
                            &&& type_eq(expected, old(self).frame.return_type)
                            &&& actual == Type::I
                            &&& final(self).frame.operand_stack.stack@ == s0
                        },
                        ExecutionError::StackUnderflow => {
                            &&& old(self).frame.return_type is I
                            &&& s0.len() < 4
                            &&& final(self).frame.operand_stack.stack@ == s0
                        },
                        _ => false,
                    },
                }
            }),
    {
        if !matches!(self.frame.return_type, Type::I) {
            return Err(ExecutionError::BadReturnType(self.frame.return_type.clone(), Type::I));
        }
        let v = self.ipop()?;
        Ok(Variable::Int(Int { value: v }))
    }

    /// Terminates execution with the `Long` on top of the stack,
    /// checking that the frame's declared return type is `J`.
    pub fn lreturn(&mut self) -> (r: Result<Variable, ExecutionError>)
        ensures
            frame_except_stack(final(self).frame, old(self).frame),
            final(self).pending == old(self).pending,
            ({
                let s0 = old(self).frame.operand_stack.stack@;
                match r {
                    Ok(v) => {
                        &&& old(self).frame.return_type is J
                        &&& s0.len() >= 8
                        &&& v == Variable::Long(Long { value: i64_of_bits(stack_top64(s0)) })
                        &&& final(self).frame.operand_stack.stack@ == stack_drop64(s0)
                    },
                    Err(e) => match e {
                        ExecutionError::BadReturnType(expected, actual) => {
                            &&& !(old(self).frame.return_type is J)
                            &&& type_eq(expected, old(self).frame.return_type)
                            &&& actual == Type::J
                            &&& final(self).frame.operand_stack.stack@ == s0
                        },
                        ExecutionError::StackUnderflow => {
                            &&& old(self).frame.return_type is J
                            &&& s0.len() < 8
                            &&& final(self).frame.operand_stack.stack@ == s0
                        },
                        _ => false,
                    },
                }
            }),
    {
        if !matches!(self.frame.return_type, Type::J) {
            return Err(ExecutionError::BadReturnType(self.frame.return_type.clone(), Type::J));
        }
        let v = self.lpop()?;
        Ok(Variable::Long(Long { value: v }))
    }

    /// Terminates execution with the `Float` on top of the stack,
    /// checking that the frame's declared return type is `F`.
    pub fn freturn(&mut self) -> (r: Result<Variable, ExecutionError>)
        ensures
            frame_except_stack(final(self).frame, old(self).frame),
            final(self).pending == old(self).pending,
            ({
                let s0 = old(self).frame.operand_stack.stack@;
                match r {
                    Ok(v) => {
                        &&& old(self).frame.return_type is F
                        &&& s0.len() >= 4
                        &&& v == Variable::Float(Float { bits: stack_top32(s0) })
                        &&& final(self).frame.operand_stack.stack@ == stack_drop32(s0)
                    },
                    Err(e) => match e {
                        ExecutionError::BadReturnType(expected, actual) => {
                            &&& !(old(self).frame.return_type is F)
                            &&& type_eq(expected, old(self).frame.return_type)
                            &&& actual == Type::F
                            &&& final(self).frame.operand_stack.stack@ == s0
                        },
                        ExecutionError::StackUnderflow => {
                            &&& old(self).frame.return_type is F
                            &&& s0.len() < 4
                            &&& final(self).frame.operand_stack.stack@ == s0
                        },
                        _ => false,
                    },
                }
            }),
    {
        if !matches!(self.frame.return_type, Type::F) {
            return Err(ExecutionError::BadReturnType(self.frame.return_type.clone(), Type::F));
        }
        let v = self.fpop()?;
        Ok(Variable::Float(Float { bits: v }))
    }

    /// Terminates execution with the `Double` on top of the stack,
    /// checking that the frame's declared return type is `D`.
    pub fn dreturn(&mut self) -> (r: Result<Variable, ExecutionError>)
        ensures
            frame_except_stack(final(self).frame, old(self).frame),
            final(self).pending == old(self).pending,
            ({
                let s0 = old(self).frame.operand_stack.stack@;
                match r {
                    Ok(v) => {
                        &&& old(self).frame.return_type is D
                        &&& s0.len() >= 8
                        &&& v == Variable::Double(Double { bits: stack_top64(s0) })
                        &&& final(self).frame.operand_stack.stack@ == stack_drop64(s0)
                    },
                    Err(e) => match e {
                        ExecutionError::BadReturnType(expected, actual) => {
                            &&& !(old(self).frame.return_type is D)
                            &&& type_eq(expected, old(self).frame.return_type)
                            &&& actual == Type::D
                            &&& final(self).frame.operand_stack.stack@ == s0
                        },
                        ExecutionError::StackUnderflow => {
                            &&& old(self).frame.return_type is D
                            &&& s0.len() < 8
                            &&& final(self).frame.operand_stack.stack@ == s0
                        },
                        _ => false,
                    },
                }
            }),
    {
        if !matches!(self.frame.return_type, Type::D) {
            return Err(ExecutionError::BadReturnType(self.frame.return_type.clone(), Type::D));
        }
        let v = self.dpop()?;
        Ok(Variable::Double(Double { bits: v }))
    }

    /// Terminates execution of a void method: the declared return
    /// type must be `V`, and the yielded value is the null value.
    pub fn vreturn(&mut self) -> (r: Result<Variable, ExecutionError>)
        ensures
            *final(self) == *old(self),
            match r {
                Ok(v) => old(self).frame.return_type is V && v == Variable::Null(Null {}),
                Err(e) => match e {
                    ExecutionError::BadReturnType(expected, actual) => {
                        &&& !(old(self).frame.return_type is V)
                        &&& type_eq(expected, old(self).frame.return_type)
                        &&& actual == Type::V
                    },
                    _ => false,
                },
            },
    {
        if !matches!(self.frame.return_type, Type::V) {
            return Err(ExecutionError::BadReturnType(self.frame.return_type.clone(), Type::V));
        }
        Ok(Variable::Null(Null {}))
    }
}

/// Everything of two interpreters agrees but the program counter,
/// the operand stack's contents, the locals and the pending request:
/// the code, the declared return type, the constant pool, the invoker
/// and the stack's maximum depth.
pub open spec fn frame_statics_same(a: Interpreter, b: Interpreter) -> bool {
    &&& a.frame.code == b.frame.code
    &&& a.frame.return_type == b.frame.return_type
    &&& a.frame.constant_pool == b.frame.constant_pool
    &&& a.frame.invoker == b.frame.invoker
    &&& a.frame.operand_stack.max_depth == b.frame.operand_stack.max_depth
}

impl Interpreter {
    /// Whether a request's result is pushed as eight bytes.
    fn is_wide_result(op: Opcode) -> (r: bool)
        ensures
            r == float_result_wide(op),
    {
        matches!(
            op,
            Opcode::DAdd | Opcode::DSub | Opcode::DMul | Opcode::DDiv | Opcode::DRem
                | Opcode::I2D | Opcode::L2D | Opcode::F2D | Opcode::F2L | Opcode::D2L
        )
    }

    /// Rearranges the category cells on top of the stack: the pop,
    /// dup and swap family of JVMS 6.5. The rearrangement happens
    /// whole or not at all.
    #[verifier::rlimit(100)]
    #[verifier::spinoff_prover]
    pub fn stack_op(&mut self, op: StackOp) -> (r: Result<(), ExecutionError>)
        ensures
            frame_except_stack(final(self).frame, old(self).frame),
            final(self).pending == old(self).pending,
            ({
                let s0 = old(self).frame.operand_stack.stack@;
                let max = old(self).frame.operand_stack.max_depth;
                match r {
                    Ok(()) => {
                        &&& s0.len() >= stack_op_needs(op)
                        &&& !stack_op_over(op, s0.len(), max as nat)
                        &&& final(self).frame.operand_stack.stack@ == stack_op_result(op, s0)
                    },
                    Err(e) => match e {
                        ExecutionError::StackUnderflow => s0.len() < stack_op_needs(op) && final(self).frame.operand_stack.stack@ == s0,
                        ExecutionError::StackOverflow => {
                            &&& s0.len() >= stack_op_needs(op)
                            &&& stack_op_over(op, s0.len(), max as nat)
                            &&& final(self).frame.operand_stack.stack@ == s0
                        },
                        _ => false,
                    },
                }
            }),
    {
        let ghost s0 = self.frame.operand_stack.stack@;
        let len = self.frame.operand_stack.stack.len();
        let max = self.frame.operand_stack.max_depth;
        let needs: usize = match op {
            StackOp::Pop => 4,
            StackOp::Pop2 => 8,
            StackOp::Dup => 4,
            StackOp::DupX1 => 8,
            StackOp::DupX2 => 12,
            StackOp::Dup2 => 8,
            StackOp::Dup2X1 => 12,
            StackOp::Dup2X2 => 16,
            StackOp::Swap => 8,
        };
        if len < needs {
            return Err(ExecutionError::StackUnderflow);
        }
        let added: usize = match op {
            StackOp::Dup | StackOp::DupX1 | StackOp::DupX2 => 4,
            StackOp::Dup2 | StackOp::Dup2X1 | StackOp::Dup2X2 => 8,
            _ => 0,
        };
        let over = match op {
            StackOp::Pop | StackOp::Pop2 => false,
            StackOp::Swap => len > max,
            _ => max < len || added > max - len,
        };
        if over {
            return Err(ExecutionError::StackOverflow);
        }
        proof {
            lemma_top32_bytes(s0);
            if s0.len() >= 8 {
                lemma_top32_bytes(stack_drop32(s0));
                assert(be32(stack_top32(stack_drop32(s0))) =~= s0.subrange(
                    s0.len() - 8,
                    s0.len() - 4,
                ));
            }
            if s0.len() >= 12 {
                lemma_top32_bytes(stack_drop32(stack_drop32(s0)));
                assert(be32(stack_top32(stack_drop32(stack_drop32(s0)))) =~= s0.subrange(
                    s0.len() - 12,
                    s0.len() - 8,
                ));
            }
            if s0.len() >= 16 {
                lemma_top32_bytes(stack_drop32(stack_drop32(stack_drop32(s0))));
                assert(be32(stack_top32(stack_drop32(stack_drop32(stack_drop32(s0)))))
                    =~= s0.subrange(s0.len() - 16, s0.len() - 12));
            }
        }
        match op {
            StackOp::Pop => {
                self.frame.operand_stack.pop_u32()?;
            },
            StackOp::Pop2 => {
                self.frame.operand_stack.pop_u32()?;
                self.frame.operand_stack.pop_u32()?;
            },
            StackOp::Dup => {
                let c1 = self.frame.operand_stack.pop_u32()?;
                self.frame.operand_stack.push_u32(c1)?;
                self.frame.operand_stack.push_u32(c1)?;
            },
            StackOp::DupX1 => {
                let c1 = self.frame.operand_stack.pop_u32()?;
                let c2 = self.frame.operand_stack.pop_u32()?;
                self.frame.operand_stack.push_u32(c1)?;
                self.frame.operand_stack.push_u32(c2)?;
                self.frame.operand_stack.push_u32(c1)?;
            },
            StackOp::DupX2 => {
                let c1 = self.frame.operand_stack.pop_u32()?;
                let c2 = self.frame.operand_stack.pop_u32()?;
                let c3 = self.frame.operand_stack.pop_u32()?;
                self.frame.operand_stack.push_u32(c1)?;
                self.frame.operand_stack.push_u32(c3)?;
                self.frame.operand_stack.push_u32(c2)?;
                self.frame.operand_stack.push_u32(c1)?;
            },
            StackOp::Dup2 => {
                let c1 = self.frame.operand_stack.pop_u32()?;
                let c2 = self.frame.operand_stack.pop_u32()?;
                self.frame.operand_stack.push_u32(c2)?;
                self.frame.operand_stack.push_u32(c1)?;
                self.frame.operand_stack.push_u32(c2)?;
                self.frame.operand_stack.push_u32(c1)?;
            },
            StackOp::Dup2X1 => {
                let c1 = self.frame.operand_stack.pop_u32()?;
                let c2 = self.frame.operand_stack.pop_u32()?;
                let c3 = self.frame.operand_stack.pop_u32()?;
                self.frame.operand_stack.push_u32(c2)?;
                self.frame.operand_stack.push_u32(c1)?;
                self.frame.operand_stack.push_u32(c3)?;
                self.frame.operand_stack.push_u32(c2)?;
                self.frame.operand_stack.push_u32(c1)?;
            },
            StackOp::Dup2X2 => {
                let c1 = self.frame.operand_stack.pop_u32()?;
                let c2 = self.frame.operand_stack.pop_u32()?;
                let c3 = self.frame.operand_stack.pop_u32()?;
                let c4 = self.frame.operand_stack.pop_u32()?;
                self.frame.operand_stack.push_u32(c2)?;
                self.frame.operand_stack.push_u32(c1)?;
                self.frame.operand_stack.push_u32(c4)?;
                self.frame.operand_stack.push_u32(c3)?;
                self.frame.operand_stack.push_u32(c2)?;
                self.frame.operand_stack.push_u32(c1)?;
            },
            StackOp::Swap => {
                let c1 = self.frame.operand_stack.pop_u32()?;
                let c2 = self.frame.operand_stack.pop_u32()?;
                self.frame.operand_stack.push_u32(c1)?;
                self.frame.operand_stack.push_u32(c2)?;
            },
        }
        proof {
            assert(self.frame.operand_stack.stack@ =~= stack_op_result(op, s0));
        }
        Ok(())
    }

    /// Executes exactly one instruction: one fetch, decode and
    /// execute round, whose whole effect is [`step_spec`] of the
    /// entry state. A floating-point opcode pops its operands, files
    /// the request as pending and hands it out; everything else
    /// either continues, returns the frame's value, or faults.
    #[verifier::rlimit(100)]
    #[verifier::spinoff_prover]
    pub fn step(&mut self) -> (r: Result<Option<Outcome>, ExecutionError>)
        requires
            old(self).frame.code@.len() <= 0xFFFF_FFFF,
            old(self).pending is None,
        ensures
            frame_statics_same(*final(self), *old(self)),
            ({
                let res = step_spec(
                    old(self).frame.code@,
                    old(self).frame.return_type,
                    old(self).frame.operand_stack.max_depth as nat,
                    interp_state(*old(self)),
                );
                match r {
                    Ok(None) => (res matches StepRes::Next(s2) && interp_state(*final(self)) == s2
                        && final(self).pending is None),
                    Ok(Some(Outcome::FloatRequest(req))) => (res matches StepRes::Request(s2, req2)
                        && req2 == req && interp_state(*final(self)) == s2 && final(self).pending
                        == Some(req) && is_float_request_op(req.op)),
                    Ok(Some(Outcome::Returned(v))) => (res == StepRes::Done(v) && final(self).pending is None
                        && variable_matches_return(v, old(self).frame.return_type)),
                    Err(e) => (res matches StepRes::Fault(f) && fault_matches(
                        e,
                        f,
                        old(self).frame.return_type,
                    ) && final(self).pending is None),
                }
            }),
    {
        let byte = self.fetch()?;
        let opcode = self.decode(byte)?;
        let b = opcode.as_byte();
        if b <= 0x35 {
            self.exec_op_low(opcode)
        } else if b <= 0x5F {
            self.exec_op_store_stack(opcode)
        } else if b <= 0x83 {
            self.exec_op_arith(opcode)
        } else if b <= 0x98 {
            self.exec_op_conv_cmp(opcode)
        } else if b <= 0x9E {
            self.exec_op_branch_zero(opcode)
        } else if b <= 0xA1 {
            self.exec_op_branch_cmp_a(opcode)
        } else if b <= 0xA7 {
            self.exec_op_branch_cmp_b(opcode)
        } else {
            self.exec_op_return(opcode)
        }
    }

    /// Executes one already-decoded instruction with a byte between
    /// 0x00 and 0x35; the effect is [`step_op`] of the entry state.
    #[verifier::rlimit(100)]
    #[verifier::spinoff_prover]
    fn exec_op_low(&mut self, opcode: Opcode) -> (r: Result<Option<Outcome>, ExecutionError>)
        requires
            old(self).frame.code@.len() <= 0xFFFF_FFFF,
            old(self).pending is None,
            0x00 <= opcode_byte(opcode) <= 0x35,
        ensures
            frame_statics_same(*final(self), *old(self)),
            ({
                let res = step_op(
                    old(self).frame.code@,
                    old(self).frame.return_type,
                    old(self).frame.operand_stack.max_depth as nat,
                    interp_state(*old(self)),
                    opcode,
                );
                match r {
                    Ok(None) => (res matches StepRes::Next(s2) && interp_state(*final(self)) == s2
                        && final(self).pending is None),
                    Ok(Some(Outcome::FloatRequest(req))) => (res matches StepRes::Request(s2, req2)
                        && req2 == req && interp_state(*final(self)) == s2 && final(self).pending
                        == Some(req) && is_float_request_op(req.op)),
                    Ok(Some(Outcome::Returned(v))) => (res == StepRes::Done(v) && final(self).pending is None
                        && variable_matches_return(v, old(self).frame.return_type)),
                    Err(e) => (res matches StepRes::Fault(f) && fault_matches(
                        e,
                        f,
                        old(self).frame.return_type,
                    ) && final(self).pending is None),
                }
            }),
    {
        match opcode {
            Opcode::Nop => {},
            Opcode::IConstM1 => { self.ipush(-1)?; },
            Opcode::IConst0 => { self.ipush(0)?; },
            Opcode::IConst1 => { self.ipush(1)?; },
            Opcode::IConst2 => { self.ipush(2)?; },
            Opcode::IConst3 => { self.ipush(3)?; },
            Opcode::IConst4 => { self.ipush(4)?; },
            Opcode::IConst5 => { self.ipush(5)?; },
            Opcode::LConst0 => { self.lpush(0)?; },
            Opcode::LConst1 => { self.lpush(1)?; },
            Opcode::FConst0 => { self.fpush(0x0000_0000)?; },
            Opcode::FConst1 => { self.fpush(0x3F80_0000)?; },
            Opcode::FConst2 => { self.fpush(0x4000_0000)?; },
            Opcode::DConst0 => { self.dpush(0x0000_0000_0000_0000)?; },
            Opcode::DConst1 => { self.dpush(0x3FF0_0000_0000_0000)?; },
            Opcode::BIpush => {
                let b = self.fetch()?;
                self.ipush((#[verifier::truncate] (b as i8)) as i32)?;
            },
            Opcode::SIpush => {
                let hi = self.fetch()?;
                let lo = self.fetch()?;
                let short: i16 = #[verifier::truncate] ((((hi as u16) << 8) | (lo
                    as u16)) as i16);
                self.ipush(short as i32)?;
            },
            Opcode::ILoad => {
                let index = self.fetch()?;
                self.iload(index as u16)?;
            },
            Opcode::ILoad0 => { self.iload(0)?; },
            Opcode::ILoad1 => { self.iload(1)?; },
            Opcode::ILoad2 => { self.iload(2)?; },
            Opcode::ILoad3 => { self.iload(3)?; },
            Opcode::LLoad => {
                let index = self.fetch()?;
                self.lload(index as u16)?;
            },
            Opcode::LLoad0 => { self.lload(0)?; },
            Opcode::LLoad1 => { self.lload(1)?; },
            Opcode::LLoad2 => { self.lload(2)?; },
            Opcode::LLoad3 => { self.lload(3)?; },
            Opcode::FLoad => {
                let index = self.fetch()?;
                self.fload(index as u16)?;
            },
            Opcode::FLoad0 => { self.fload(0)?; },
            Opcode::FLoad1 => { self.fload(1)?; },
            Opcode::FLoad2 => { self.fload(2)?; },
            Opcode::FLoad3 => { self.fload(3)?; },
            Opcode::DLoad => {
                let index = self.fetch()?;
                self.dload(index as u16)?;
            },
            Opcode::DLoad0 => { self.dload(0)?; },
            Opcode::DLoad1 => { self.dload(1)?; },
            Opcode::DLoad2 => { self.dload(2)?; },
            Opcode::DLoad3 => { self.dload(3)?; },
            _ => {
                return Err(ExecutionError::UnimplementedOpcode(opcode));
            },
        }
        Ok(None)
    }

    /// Executes one already-decoded instruction with a byte between
    /// 0x36 and 0x5F; the effect is [`step_op`] of the entry state.
    #[verifier::rlimit(100)]
    #[verifier::spinoff_prover]
    fn exec_op_store_stack(&mut self, opcode: Opcode) -> (r: Result<Option<Outcome>, ExecutionError>)
        requires
            old(self).frame.code@.len() <= 0xFFFF_FFFF,
            old(self).pending is None,
            0x36 <= opcode_byte(opcode) <= 0x5F,
        ensures
            frame_statics_same(*final(self), *old(self)),
            ({
                let res = step_op(
                    old(self).frame.code@,
                    old(self).frame.return_type,
                    old(self).frame.operand_stack.max_depth as nat,
                    interp_state(*old(self)),
                    opcode,
                );
                match r {
                    Ok(None) => (res matches StepRes::Next(s2) && interp_state(*final(self)) == s2
                        && final(self).pending is None),
                    Ok(Some(Outcome::FloatRequest(req))) => (res matches StepRes::Request(s2, req2)
                        && req2 == req && interp_state(*final(self)) == s2 && final(self).pending
                        == Some(req) && is_float_request_op(req.op)),
                    Ok(Some(Outcome::Returned(v))) => (res == StepRes::Done(v) && final(self).pending is None
                        && variable_matches_return(v, old(self).frame.return_type)),
                    Err(e) => (res matches StepRes::Fault(f) && fault_matches(
                        e,
                        f,
                        old(self).frame.return_type,
                    ) && final(self).pending is None),
                }
            }),
    {
        match opcode {
            Opcode::IStore => {
                let index = self.fetch()?;
                let val = self.ipop()?;
                self.istore(index as u16, val);
            },
            Opcode::IStore0 => { let val = self.ipop()?; self.istore(0, val);  return Ok(None); },
            Opcode::IStore1 => { let val = self.ipop()?; self.istore(1, val);  return Ok(None); },
            Opcode::IStore2 => { let val = self.ipop()?; self.istore(2, val);  return Ok(None); },
            Opcode::IStore3 => { let val = self.ipop()?; self.istore(3, val);  return Ok(None); },
            Opcode::LStore => {
                let index = self.fetch()?;
                let val = self.lpop()?;
                self.lstore(index as u16, val);
            },
            Opcode::LStore0 => { let val = self.lpop()?; self.lstore(0, val);  return Ok(None); },
            Opcode::LStore1 => { let val = self.lpop()?; self.lstore(1, val);  return Ok(None); },
            Opcode::LStore2 => { let val = self.lpop()?; self.lstore(2, val);  return Ok(None); },
            Opcode::LStore3 => { let val = self.lpop()?; self.lstore(3, val);  return Ok(None); },
            Opcode::FStore => {
                let index = self.fetch()?;
                let val = self.fpop()?;
                self.fstore(index as u16, val);
            },
            Opcode::FStore0 => { let val = self.fpop()?; self.fstore(0, val);  return Ok(None); },
            Opcode::FStore1 => { let val = self.fpop()?; self.fstore(1, val);  return Ok(None); },
            Opcode::FStore2 => { let val = self.fpop()?; self.fstore(2, val);  return Ok(None); },
            Opcode::FStore3 => { let val = self.fpop()?; self.fstore(3, val);  return Ok(None); },
            Opcode::DStore => {
                let index = self.fetch()?;
                let val = self.dpop()?;
                self.dstore(index as u16, val);
            },
            Opcode::DStore0 => { let val = self.dpop()?; self.dstore(0, val);  return Ok(None); },
            Opcode::DStore1 => { let val = self.dpop()?; self.dstore(1, val);  return Ok(None); },
            Opcode::DStore2 => { let val = self.dpop()?; self.dstore(2, val);  return Ok(None); },
            Opcode::DStore3 => { let val = self.dpop()?; self.dstore(3, val);  return Ok(None); },
            Opcode::Pop => { self.stack_op(StackOp::Pop)?; return Ok(None); },
            Opcode::Pop2 => { self.stack_op(StackOp::Pop2)?; return Ok(None); },
            Opcode::Dup => { self.stack_op(StackOp::Dup)?; return Ok(None); },
            Opcode::DupX1 => { self.stack_op(StackOp::DupX1)?; return Ok(None); },
            Opcode::DupX2 => { self.stack_op(StackOp::DupX2)?; return Ok(None); },
            Opcode::Dup2 => { self.stack_op(StackOp::Dup2)?; return Ok(None); },
            Opcode::Dup2X1 => { self.stack_op(StackOp::Dup2X1)?; return Ok(None); },
            Opcode::Dup2X2 => { self.stack_op(StackOp::Dup2X2)?; return Ok(None); },
            Opcode::Swap => { self.stack_op(StackOp::Swap)?; return Ok(None); },
            _ => {
                return Err(ExecutionError::UnimplementedOpcode(opcode));
            },
        }
        Ok(None)
    }

    /// Executes one already-decoded instruction with a byte between
    /// 0x60 and 0x83; the effect is [`step_op`] of the entry state.
    #[verifier::rlimit(100)]
    #[verifier::spinoff_prover]
    fn exec_op_arith(&mut self, opcode: Opcode) -> (r: Result<Option<Outcome>, ExecutionError>)
        requires
            old(self).frame.code@.len() <= 0xFFFF_FFFF,
            old(self).pending is None,
            0x60 <= opcode_byte(opcode) <= 0x83,
        ensures
            frame_statics_same(*final(self), *old(self)),
            ({
                let res = step_op(
                    old(self).frame.code@,
                    old(self).frame.return_type,
                    old(self).frame.operand_stack.max_depth as nat,
                    interp_state(*old(self)),
                    opcode,
                );
                match r {
                    Ok(None) => (res matches StepRes::Next(s2) && interp_state(*final(self)) == s2
                        && final(self).pending is None),
                    Ok(Some(Outcome::FloatRequest(req))) => (res matches StepRes::Request(s2, req2)
                        && req2 == req && interp_state(*final(self)) == s2 && final(self).pending
                        == Some(req) && is_float_request_op(req.op)),
                    Ok(Some(Outcome::Returned(v))) => (res == StepRes::Done(v) && final(self).pending is None
                        && variable_matches_return(v, old(self).frame.return_type)),
                    Err(e) => (res matches StepRes::Fault(f) && fault_matches(
                        e,
                        f,
                        old(self).frame.return_type,
                    ) && final(self).pending is None),
                }
            }),
    {
        match opcode {
            Opcode::IAdd => { self.int_binop(BinOp::Add)?; },
            Opcode::LAdd => { self.long_binop(BinOp::Add)?; },
            Opcode::ISub => { self.int_binop(BinOp::Sub)?; },
            Opcode::LSub => { self.long_binop(BinOp::Sub)?; },
            Opcode::IMul => { self.int_binop(BinOp::Mul)?; },
            Opcode::LMul => { self.long_binop(BinOp::Mul)?; },
            Opcode::IDiv => { self.int_binop(BinOp::Div)?; },
            Opcode::LDiv => { self.long_binop(BinOp::Div)?; },
            Opcode::IRem => { self.int_binop(BinOp::Rem)?; },
            Opcode::LRem => { self.long_binop(BinOp::Rem)?; },
            Opcode::INeg => { self.ineg()?; },
            Opcode::LNeg => { self.lneg()?; },
            Opcode::FNeg => { self.fneg()?; },
            Opcode::DNeg => { self.dneg()?; },
            Opcode::IShl => { self.int_binop(BinOp::Shl)?; },
            Opcode::LShl => { self.long_binop(BinOp::Shl)?; },
            Opcode::IShr => { self.int_binop(BinOp::Shr)?; },
            Opcode::LShr => { self.long_binop(BinOp::Shr)?; },
            Opcode::IUShr => { self.int_binop(BinOp::Ushr)?; },
            Opcode::LUShr => { self.long_binop(BinOp::Ushr)?; },
            Opcode::IAnd => { self.int_binop(BinOp::And)?; },
            Opcode::LAnd => { self.long_binop(BinOp::And)?; },
            Opcode::IOr => { self.int_binop(BinOp::Or)?; },
            Opcode::LOr => { self.long_binop(BinOp::Or)?; },
            Opcode::IXor => { self.int_binop(BinOp::Xor)?; },
            Opcode::LXor => { self.long_binop(BinOp::Xor)?; },
            Opcode::FAdd | Opcode::FSub | Opcode::FMul | Opcode::FDiv | Opcode::FRem => {
                if self.frame.operand_stack.stack.len() < 8 {
                    return Err(ExecutionError::StackUnderflow);
                }
                let value2 = self.fpop()?;
                let value1 = self.fpop()?;
                let req = FloatRequest { op: opcode, a: value1 as u64, b: value2 as u64 };
                self.pending = Some(req);
                return Ok(Some(Outcome::FloatRequest(req)));
            },
            Opcode::DAdd | Opcode::DSub | Opcode::DMul | Opcode::DDiv | Opcode::DRem => {
                if self.frame.operand_stack.stack.len() < 16 {
                    return Err(ExecutionError::StackUnderflow);
                }
                let value2 = self.dpop()?;
                let value1 = self.dpop()?;
                let req = FloatRequest { op: opcode, a: value1, b: value2 };
                self.pending = Some(req);
                return Ok(Some(Outcome::FloatRequest(req)));
            },
            _ => {
                return Err(ExecutionError::UnimplementedOpcode(opcode));
            },
        }
        Ok(None)
    }

    /// Executes one already-decoded instruction with a byte between
    /// 0x84 and 0x98; the effect is [`step_op`] of the entry state.
    #[verifier::rlimit(100)]
    #[verifier::spinoff_prover]
    fn exec_op_conv_cmp(&mut self, opcode: Opcode) -> (r: Result<Option<Outcome>, ExecutionError>)
        requires
            old(self).frame.code@.len() <= 0xFFFF_FFFF,
            old(self).pending is None,
            0x84 <= opcode_byte(opcode) <= 0x98,
        ensures
            frame_statics_same(*final(self), *old(self)),
            ({
                let res = step_op(
                    old(self).frame.code@,
                    old(self).frame.return_type,
                    old(self).frame.operand_stack.max_depth as nat,
                    interp_state(*old(self)),
                    opcode,
                );
                match r {
                    Ok(None) => (res matches StepRes::Next(s2) && interp_state(*final(self)) == s2
                        && final(self).pending is None),
                    Ok(Some(Outcome::FloatRequest(req))) => (res matches StepRes::Request(s2, req2)
                        && req2 == req && interp_state(*final(self)) == s2 && final(self).pending
                        == Some(req) && is_float_request_op(req.op)),
                    Ok(Some(Outcome::Returned(v))) => (res == StepRes::Done(v) && final(self).pending is None
                        && variable_matches_return(v, old(self).frame.return_type)),
                    Err(e) => (res matches StepRes::Fault(f) && fault_matches(
                        e,
                        f,
                        old(self).frame.return_type,
                    ) && final(self).pending is None),
                }
            }),
    {
        match opcode {
            Opcode::I2L => { self.conv_i2l()?; return Ok(None); },
            Opcode::I2F | Opcode::I2D | Opcode::F2I | Opcode::F2L | Opcode::F2D => {
                let bits = self.fpop()?;
                let req = FloatRequest { op: opcode, a: bits as u64, b: 0 };
                self.pending = Some(req);
                return Ok(Some(Outcome::FloatRequest(req)));
            },
            Opcode::L2I => { self.conv_l2i()?; return Ok(None); },
            Opcode::L2F | Opcode::L2D | Opcode::D2I | Opcode::D2L | Opcode::D2F => {
                let bits = self.dpop()?;
                let req = FloatRequest { op: opcode, a: bits, b: 0 };
                self.pending = Some(req);
                return Ok(Some(Outcome::FloatRequest(req)));
            },
            Opcode::I2B => { self.conv_i2b()?; return Ok(None); },
            Opcode::I2C => { self.conv_i2c()?; return Ok(None); },
            Opcode::I2S => { self.conv_i2s()?; return Ok(None); },
            Opcode::LCmp => { self.lcmp()?; return Ok(None); },
            Opcode::FCmpL => { self.fcmp(-1)?; return Ok(None); },
            Opcode::FCmpG => { self.fcmp(1)?; return Ok(None); },
            Opcode::DCmpL => { self.dcmp(-1)?; return Ok(None); },
            Opcode::DCmpG => { self.dcmp(1)?; return Ok(None); },
            _ => {
                return Err(ExecutionError::UnimplementedOpcode(opcode));
            },
        }
        Ok(None)
    }

    /// Executes one already-decoded instruction with a byte between
    /// 0x99 and 0x9E; the effect is [`step_op`] of the entry state.
    #[verifier::rlimit(100)]
    #[verifier::spinoff_prover]
    fn exec_op_branch_zero(&mut self, opcode: Opcode) -> (r: Result<Option<Outcome>, ExecutionError>)
        requires
            old(self).frame.code@.len() <= 0xFFFF_FFFF,
            old(self).frame.pc >= 1,
            old(self).pending is None,
            0x99 <= opcode_byte(opcode) <= 0x9E,
        ensures
            frame_statics_same(*final(self), *old(self)),
            ({
                let res = step_op(
                    old(self).frame.code@,
                    old(self).frame.return_type,
                    old(self).frame.operand_stack.max_depth as nat,
                    interp_state(*old(self)),
                    opcode,
                );
                match r {
                    Ok(None) => (res matches StepRes::Next(s2) && interp_state(*final(self)) == s2
                        && final(self).pending is None),
                    Ok(Some(Outcome::FloatRequest(req))) => (res matches StepRes::Request(s2, req2)
                        && req2 == req && interp_state(*final(self)) == s2 && final(self).pending
                        == Some(req) && is_float_request_op(req.op)),
                    Ok(Some(Outcome::Returned(v))) => (res == StepRes::Done(v) && final(self).pending is None
                        && variable_matches_return(v, old(self).frame.return_type)),
                    Err(e) => (res matches StepRes::Fault(f) && fault_matches(
                        e,
                        f,
                        old(self).frame.return_type,
                    ) && final(self).pending is None),
                }
            }),
    {
        match opcode {
            Opcode::IfEq => { self.branch_zero(Cond::Eq)?; },
            Opcode::IfNe => { self.branch_zero(Cond::Ne)?; },
            Opcode::IfLt => { self.branch_zero(Cond::Lt)?; },
            Opcode::IfGe => { self.branch_zero(Cond::Ge)?; },
            Opcode::IfGt => { self.branch_zero(Cond::Gt)?; },
            Opcode::IfLe => { self.branch_zero(Cond::Le)?; },
            _ => {
                return Err(ExecutionError::UnimplementedOpcode(opcode));
            },
        }
        Ok(None)
    }

    /// Executes one already-decoded instruction with a byte between
    /// 0x9F and 0xA1; the effect is [`step_op`] of the entry state.
    #[verifier::rlimit(100)]
    #[verifier::spinoff_prover]
    fn exec_op_branch_cmp_a(&mut self, opcode: Opcode) -> (r: Result<Option<Outcome>, ExecutionError>)
        requires
            old(self).frame.code@.len() <= 0xFFFF_FFFF,
            old(self).frame.pc >= 1,
            old(self).pending is None,
            0x9F <= opcode_byte(opcode) <= 0xA1,
        ensures
            frame_statics_same(*final(self), *old(self)),
            ({
                let res = step_op(
                    old(self).frame.code@,
                    old(self).frame.return_type,
                    old(self).frame.operand_stack.max_depth as nat,
                    interp_state(*old(self)),
                    opcode,
                );
                match r {
                    Ok(None) => (res matches StepRes::Next(s2) && interp_state(*final(self)) == s2
                        && final(self).pending is None),
                    Ok(Some(Outcome::FloatRequest(req))) => (res matches StepRes::Request(s2, req2)
                        && req2 == req && interp_state(*final(self)) == s2 && final(self).pending
                        == Some(req) && is_float_request_op(req.op)),
                    Ok(Some(Outcome::Returned(v))) => (res == StepRes::Done(v) && final(self).pending is None
                        && variable_matches_return(v, old(self).frame.return_type)),
                    Err(e) => (res matches StepRes::Fault(f) && fault_matches(
                        e,
                        f,
                        old(self).frame.return_type,
                    ) && final(self).pending is None),
                }
            }),
    {
        match opcode {
            Opcode::IfICmpEq => { self.branch_cmp(Cond::Eq)?; },
            Opcode::IfICmpNe => { self.branch_cmp(Cond::Ne)?; },
            Opcode::IfICmpLt => { self.branch_cmp(Cond::Lt)?; },
            _ => {
                return Err(ExecutionError::UnimplementedOpcode(opcode));
            },
        }
        Ok(None)
    }

    /// Executes one already-decoded instruction with a byte between
    /// 0xA2 and 0xA7; the effect is [`step_op`] of the entry state.
    #[verifier::rlimit(100)]
    #[verifier::spinoff_prover]
    fn exec_op_branch_cmp_b(&mut self, opcode: Opcode) -> (r: Result<Option<Outcome>, ExecutionError>)
        requires
            old(self).frame.code@.len() <= 0xFFFF_FFFF,
            old(self).frame.pc >= 1,
            old(self).pending is None,
            0xA2 <= opcode_byte(opcode) <= 0xA7,
        ensures
            frame_statics_same(*final(self), *old(self)),
            ({
                let res = step_op(
                    old(self).frame.code@,
                    old(self).frame.return_type,
                    old(self).frame.operand_stack.max_depth as nat,
                    interp_state(*old(self)),
                    opcode,
                );
                match r {
                    Ok(None) => (res matches StepRes::Next(s2) && interp_state(*final(self)) == s2
                        && final(self).pending is None),
                    Ok(Some(Outcome::FloatRequest(req))) => (res matches StepRes::Request(s2, req2)
                        && req2 == req && interp_state(*final(self)) == s2 && final(self).pending
                        == Some(req) && is_float_request_op(req.op)),
                    Ok(Some(Outcome::Returned(v))) => (res == StepRes::Done(v) && final(self).pending is None
                        && variable_matches_return(v, old(self).frame.return_type)),
                    Err(e) => (res matches StepRes::Fault(f) && fault_matches(
                        e,
                        f,
                        old(self).frame.return_type,
                    ) && final(self).pending is None),
                }
            }),
    {
        match opcode {
            Opcode::IfICmpGe => { self.branch_cmp(Cond::Ge)?; },
            Opcode::IfICmpGt => { self.branch_cmp(Cond::Gt)?; },
            Opcode::IfICmpLe => { self.branch_cmp(Cond::Le)?; },
            Opcode::Goto => { self.do_goto()?; },
            _ => {
                return Err(ExecutionError::UnimplementedOpcode(opcode));
            },
        }
        Ok(None)
    }

    /// Executes one already-decoded instruction with a byte between
    /// 0xA8 and 0xFF; the effect is [`step_op`] of the entry state.
    #[verifier::rlimit(100)]
    #[verifier::spinoff_prover]
    fn exec_op_return(&mut self, opcode: Opcode) -> (r: Result<Option<Outcome>, ExecutionError>)
        requires
            old(self).frame.code@.len() <= 0xFFFF_FFFF,
            old(self).pending is None,
            0xA8 <= opcode_byte(opcode) <= 0xFF,
        ensures
            frame_statics_same(*final(self), *old(self)),
            ({
                let res = step_op(
                    old(self).frame.code@,
                    old(self).frame.return_type,
                    old(self).frame.operand_stack.max_depth as nat,
                    interp_state(*old(self)),
                    opcode,
                );
                match r {
                    Ok(None) => (res matches StepRes::Next(s2) && interp_state(*final(self)) == s2
                        && final(self).pending is None),
                    Ok(Some(Outcome::FloatRequest(req))) => (res matches StepRes::Request(s2, req2)
                        && req2 == req && interp_state(*final(self)) == s2 && final(self).pending
                        == Some(req) && is_float_request_op(req.op)),
                    Ok(Some(Outcome::Returned(v))) => (res == StepRes::Done(v) && final(self).pending is None
                        && variable_matches_return(v, old(self).frame.return_type)),
                    Err(e) => (res matches StepRes::Fault(f) && fault_matches(
                        e,
                        f,
                        old(self).frame.return_type,
                    ) && final(self).pending is None),
                }
            }),
    {
        match opcode {
            Opcode::IReturn => { return Ok(Some(Outcome::Returned(self.ireturn()?))); },
            Opcode::LReturn => { return Ok(Some(Outcome::Returned(self.lreturn()?))); },
            Opcode::FReturn => { return Ok(Some(Outcome::Returned(self.freturn()?))); },
            Opcode::DReturn => { return Ok(Some(Outcome::Returned(self.dreturn()?))); },
            Opcode::Return => { return Ok(Some(Outcome::Returned(self.vreturn()?))); },
            Opcode::Breakpoint => {},
            Opcode::Impdep1 => {},
            Opcode::Impdep2 => {},
            _ => {
                return Err(ExecutionError::UnimplementedOpcode(opcode));
            },
        }
        Ok(None)
    }


    /// Runs the fetch/decode/execute loop until a return instruction
    /// halts the frame with a typed value, a fault halts it with an
    /// error, or a floating-point opcode suspends it with a request
    /// for the caller: the result is exactly [`run_spec`] of the
    /// entry state. A returned value's category always matches the
    /// frame's declared return type; there are no other terminal
    /// states. With a request already pending, that request is handed
    /// back unchanged: execution continues only through
    /// [`Interpreter::resume_float`].
    #[verifier::rlimit(100)]
    #[verifier::spinoff_prover]
    pub fn execute(&mut self) -> (r: Result<Outcome, ExecutionError>)
        requires
            old(self).frame.code@.len() <= 0xFFFF_FFFF,
        ensures
            frame_statics_same(*final(self), *old(self)),
            match r {
                Ok(Outcome::Returned(v)) => final(self).pending is None
                    && variable_matches_return(v, old(self).frame.return_type),
                Ok(Outcome::FloatRequest(req)) => final(self).pending == Some(req),
                Err(_) => final(self).pending is None && old(self).pending is None,
            },
            old(self).pending is None ==> reflects_run(
                r,
                *final(self),
                old(self).frame.code@,
                old(self).frame.return_type,
                old(self).frame.operand_stack.max_depth as nat,
                interp_state(*old(self)),
            ),
            old(self).pending is None ==> (r matches Ok(
                Outcome::FloatRequest(req),
            ) ==> is_float_request_op(req.op)),
            old(self).pending matches Some(req) ==> r == Ok::<Outcome, ExecutionError>(
                Outcome::FloatRequest(req),
            ) && *final(self) == *old(self),
    {
        match self.pending {
            Some(req) => Ok(Outcome::FloatRequest(req)),
            None => self.run_loop(),
        }
    }

    /// Hands the bits of a computed floating-point result back to a
    /// suspended interpreter: they are pushed with the width the
    /// pending request calls for, and the loop continues — the result
    /// is exactly [`run_spec`] of the entry state with the bits
    /// pushed. With no request pending the bits are ignored and the
    /// loop simply continues.
    #[verifier::rlimit(100)]
    #[verifier::spinoff_prover]
    pub fn resume_float(&mut self, bits: u64) -> (r: Result<Outcome, ExecutionError>)
        requires
            old(self).frame.code@.len() <= 0xFFFF_FFFF,
        ensures
            frame_statics_same(*final(self), *old(self)),
            match r {
                Ok(Outcome::Returned(v)) => final(self).pending is None
                    && variable_matches_return(v, old(self).frame.return_type),
                Ok(Outcome::FloatRequest(req)) => final(self).pending == Some(req)
                    && is_float_request_op(req.op),
                Err(_) => final(self).pending is None,
            },
            ({
                let code = old(self).frame.code@;
                let rt = old(self).frame.return_type;
                let max = old(self).frame.operand_stack.max_depth as nat;
                let s0 = interp_state(*old(self));
                match old(self).pending {
                    Some(req) => {
                        let pushed: Seq<u8> = if float_result_wide(req.op) {
                            be64(bits)
                        } else {
                            be32((bits as u32))
                        };
                        if s0.stack.len() + pushed.len() > max {
                            r == Err::<Outcome, ExecutionError>(ExecutionError::StackOverflow)
                        } else {
                            reflects_run(
                                r,
                                *final(self),
                                code,
                                rt,
                                max,
                                VmState { pc: s0.pc, stack: s0.stack + pushed, locals: s0.locals },
                            )
                        }
                    },
                    None => reflects_run(r, *final(self), code, rt, max, s0),
                }
            }),
    {
        match self.pending {
            Some(req) => {
                self.pending = None;
                if Self::is_wide_result(req.op) {
                    self.frame.operand_stack.push_u64(bits)?;
                } else {
                    self.frame.operand_stack.push_u32(#[verifier::truncate] (bits as u32))?;
                }
            },
            None => {},
        }
        self.run_loop()
    }

    /// The interpreter loop proper, entered with nothing pending: it
    /// takes [`step_spec`] steps until one of them ends the run.
    /// Execution is bounded at 2^64 instructions, a limit no real
    /// method body reaches; a program that branches backwards for
    /// that long fails with `StepLimitExceeded` rather than running
    /// on unboundedly, as [`run_spec`]'s budget says.
    fn run_loop(&mut self) -> (r: Result<Outcome, ExecutionError>)
        requires
            old(self).frame.code@.len() <= 0xFFFF_FFFF,
            old(self).pending is None,
        ensures
            frame_statics_same(*final(self), *old(self)),
            match r {
                Ok(Outcome::Returned(v)) => final(self).pending is None
                    && variable_matches_return(v, old(self).frame.return_type),
                Ok(Outcome::FloatRequest(req)) => final(self).pending == Some(req)
                    && is_float_request_op(req.op),
                Err(_) => final(self).pending is None,
            },
            reflects_run(
                r,
                *final(self),
                old(self).frame.code@,
                old(self).frame.return_type,
                old(self).frame.operand_stack.max_depth as nat,
                interp_state(*old(self)),
            ),
    {
        let ghost code0 = old(self).frame.code@;
        let ghost rt0 = old(self).frame.return_type;
        let ghost max0 = old(self).frame.operand_stack.max_depth as nat;
        let ghost init = interp_state(*old(self));
        let mut fuel: u64 = u64::MAX;
        loop
            invariant
                self.frame.code@.len() <= 0xFFFF_FFFF,
                self.pending is None,
                frame_statics_same(*self, *old(self)),
                code0 == old(self).frame.code@,
                rt0 == old(self).frame.return_type,
                max0 == old(self).frame.operand_stack.max_depth as nat,
                init == interp_state(*old(self)),
                run_spec(code0, rt0, max0, init, u64::MAX as nat) == run_spec(
                    code0,
                    rt0,
                    max0,
                    interp_state(*self),
                    fuel as nat,
                ),
            decreases fuel,
        {
            if fuel == 0 {
                return Err(ExecutionError::StepLimitExceeded);
            }
            let ghost pre = interp_state(*self);
            let ghost fuel_pre = fuel as nat;
            let stepped = self.step();
            proof {
                assert(run_spec(code0, rt0, max0, pre, fuel_pre) == (match step_spec(
                    code0,
                    rt0,
                    max0,
                    pre,
                ) {
                    StepRes::Next(s2) => run_spec(code0, rt0, max0, s2, (fuel_pre - 1) as nat),
                    StepRes::Request(s2, req) => RunRes::RRequest(s2, req),
                    StepRes::Done(v) => RunRes::RDone(v),
                    StepRes::Fault(f) => RunRes::RFault(f),
                }));
            }
            match stepped {
                Ok(None) => {
                    fuel = fuel - 1;
                },
                Ok(Some(outcome)) => {
                    return Ok(outcome);
                },
                Err(e) => {
                    return Err(e);
                },
            }
        }
    }
}

/// JVM integer division stays in the two's-complement range of its
/// width once the one overflowing pair, the minimum value divided by
/// minus one, is set aside. `min` is the width's minimum value and
/// `bound` its magnitude.
proof fn lemma_jvm_div_fits(a: int, b: int, min: int, bound: int)
    requires
        b != 0,
        min == -bound,
        bound >= 1,
        min <= a < bound,
        min <= b < bound,
        !(a == min && b == -1),
    ensures
        min <= jvm_div_int(a, b, min) < bound,
{
    let ax = abs_int(a);
    let ad = abs_int(b);
    let q0 = ax / ad;
    vstd::arithmetic::div_mod::lemma_div_pos_is_pos(ax, ad);
    vstd::arithmetic::div_mod::lemma_div_nonincreasing(ax, ad);
    if (a >= 0) == (b >= 0) {
        if ad == 1 {
            vstd::arithmetic::div_mod::lemma_div_by_self(1);
            assert(q0 == ax) by {
                vstd::arithmetic::div_mod::lemma_fundamental_div_mod(ax, 1);
                vstd::arithmetic::div_mod::lemma_mod_division_less_than_divisor(ax, 1);
            }
            assert(ax < bound);
        } else {
            vstd::arithmetic::div_mod::lemma_div_is_ordered_by_denominator(ax, 2, ad);
            assert(ax / 2 < bound) by {
                vstd::arithmetic::div_mod::lemma_fundamental_div_mod(ax, 2);
                vstd::arithmetic::div_mod::lemma_mod_division_less_than_divisor(ax, 2);
            }
        }
    }
}

/// The JVM remainder's magnitude is below the divisor's, so it always
/// stays in range.
proof fn lemma_jvm_rem_fits(a: int, b: int, min: int, bound: int)
    requires
        b != 0,
        min == -bound,
        bound >= 1,
        min <= a < bound,
        min <= b < bound,
        !(a == min && b == -1),
    ensures
        min < jvm_rem_int(a, b, min) < bound,
{
    let ax = abs_int(a);
    let ad = abs_int(b);
    vstd::arithmetic::div_mod::lemma_mod_division_less_than_divisor(ax, ad);
}

} // verus!
