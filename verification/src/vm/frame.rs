//! The activation record of one method invocation: program counter,
//! code, operand stack, locals, a handle to the class's constant pool
//! and the declared return type.
use vstd::prelude::*;

use crate::class::constant_pool::ConstantPool;
use crate::vm::local::Locals;
use crate::vm::operand_stack::OperandStack;
use crate::vm::types::Type;

verus! {

/// An activation frame, constructed per method invocation and
/// destroyed after the terminating return instruction.
#[derive(Debug)]
pub struct StackFrame {
    /// The frame of the method that invoked this one, if any.
    pub invoker: Option<Box<StackFrame>>,
    /// Program counter: a byte offset into `code`.
    pub pc: u32,
    /// The operand stack for this frame.
    pub operand_stack: OperandStack,
    /// The local variables of the running method.
    pub locals: Locals,
    /// The class's canonical constant pool.
    pub constant_pool: ConstantPool,
    /// The method's bytecode.
    pub code: Vec<u8>,
    /// The declared return type, pushed to the invoker on return.
    pub return_type: Type,
}

impl StackFrame {
    /// An empty frame: no code, an empty stack and no locals, with a
    /// void return type.
    pub fn new() -> (frame: StackFrame)
        ensures
            frame.invoker is None,
            frame.pc == 0,
            frame.operand_stack.stack@ == Seq::<u8>::empty(),
            frame.operand_stack.max_depth == usize::MAX,
            frame.locals.variables@ == Seq::<Option<crate::vm::types::Variable>>::empty(),
            frame.constant_pool.length == 0,
            frame.constant_pool.constants@ == Seq::<
                Option<crate::class::constant_pool::ConstantPoolItem>,
            >::empty(),
            frame.code@ == Seq::<u8>::empty(),
            frame.return_type == Type::V,
    {
        StackFrame {
            return_type: Type::V,
            invoker: None,
            pc: 0,
            operand_stack: OperandStack::new(),
            locals: Locals { variables: Vec::new() },
            constant_pool: ConstantPool::new(),
            code: Vec::new(),
        }
    }
}

} // verus!
