//! The instruction set architecture: opcodes and their encoding.
pub mod opcode;
