//! The class file loader: the binary layout of JVMS 17 chapter 4,
//! parsed from big-endian bytes.
pub mod access;
pub mod class;
pub mod constant_pool;
pub mod field;
pub mod method;
pub mod modified_utf8;
pub mod reader;
pub mod attribute;
pub mod verification;
