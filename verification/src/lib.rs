//! A partial Java virtual machine core: a class-file loader for the
//! JVMS 17 binary format and a bytecode interpreter for a documented
//! subset of the instruction set.
pub mod class;
pub mod error;
pub mod isa;
pub mod vm;
