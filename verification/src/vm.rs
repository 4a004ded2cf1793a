//! The virtual machine: typed values, activation frames and the
//! fetch/decode/execute interpreter.
pub mod errors;
pub mod fp;
pub mod frame;
pub mod local;
pub mod interpreter;
pub mod operand_stack;
pub mod types;
