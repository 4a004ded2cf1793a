//! Verification type info (JVMS 4.7.4): the tagged data describing
//! the abstract type of a local or stack slot in a stack map frame.
use vstd::prelude::*;

use crate::class::reader::{be16_at, ByteReader, ParseError};

verus! {

/// A verification_type_info datum, discriminated by its leading tag
/// byte, 0 through 8.
#[derive(Clone, Copy, Debug, PartialEq, Eq, Structural)]
pub enum VerificationTypeInfo {
    TopVariableInfo(TopVariableInfo),
    IntegerVariableInfo(IntegerVariableInfo),
    FloatVariableInfo(FloatVariableInfo),
    DoubleVariableInfo(DoubleVariableInfo),
    LongVariableInfo(LongVariableInfo),
    NullVariableInfo(NullVariableInfo),
    UninitializedThisVariableInfo(UninitializedThisVariableInfo),
    ObjectVariableInfo(ObjectVariableInfo),
    UninitializedVariableInfo(UninitializedVariableInfo),
}

/// Top_variable_info (tag 0).
#[derive(Clone, Copy, Debug, PartialEq, Eq, Structural)]
pub struct TopVariableInfo {
    pub tag: u8,
}

/// Integer_variable_info (tag 1).
#[derive(Clone, Copy, Debug, PartialEq, Eq, Structural)]
pub struct IntegerVariableInfo {
    pub tag: u8,
}

/// Float_variable_info (tag 2).
#[derive(Clone, Copy, Debug, PartialEq, Eq, Structural)]
pub struct FloatVariableInfo {
    pub tag: u8,
}

/// Double_variable_info (tag 3).
#[derive(Clone, Copy, Debug, PartialEq, Eq, Structural)]
pub struct DoubleVariableInfo {
    pub tag: u8,
}

/// Long_variable_info (tag 4).
#[derive(Clone, Copy, Debug, PartialEq, Eq, Structural)]
pub struct LongVariableInfo {
    pub tag: u8,
}

/// Null_variable_info (tag 5).
#[derive(Clone, Copy, Debug, PartialEq, Eq, Structural)]
pub struct NullVariableInfo {
    pub tag: u8,
}

/// UninitializedThis_variable_info (tag 6).
#[derive(Clone, Copy, Debug, PartialEq, Eq, Structural)]
pub struct UninitializedThisVariableInfo {
    pub tag: u8,
}

/// Object_variable_info (tag 7): a constant pool index.
#[derive(Clone, Copy, Debug, PartialEq, Eq, Structural)]
pub struct ObjectVariableInfo {
    pub tag: u8,
    pub constant_pool_index: u16,
}

/// Uninitialized_variable_info (tag 8): the offset of the new
/// instruction that made the value.
#[derive(Clone, Copy, Debug, PartialEq, Eq, Structural)]
pub struct UninitializedVariableInfo {
    pub tag: u8,
    pub offset: u16,
}

/// True when `info` is the verification type datum encoded at `pos`,
/// whose encoding takes `verification_type_size(info)` bytes.
pub open spec fn is_verification_type_at(
    bytes: Seq<u8>,
    pos: int,
    info: VerificationTypeInfo,
) -> bool {
    match info {
        VerificationTypeInfo::TopVariableInfo(v) => v.tag == 0 && bytes[pos] == 0 && pos + 1
            <= bytes.len(),
        VerificationTypeInfo::IntegerVariableInfo(v) => v.tag == 1 && bytes[pos] == 1 && pos + 1
            <= bytes.len(),
        VerificationTypeInfo::FloatVariableInfo(v) => v.tag == 2 && bytes[pos] == 2 && pos + 1
            <= bytes.len(),
        VerificationTypeInfo::DoubleVariableInfo(v) => v.tag == 3 && bytes[pos] == 3 && pos + 1
            <= bytes.len(),
        VerificationTypeInfo::LongVariableInfo(v) => v.tag == 4 && bytes[pos] == 4 && pos + 1
            <= bytes.len(),
        VerificationTypeInfo::NullVariableInfo(v) => v.tag == 5 && bytes[pos] == 5 && pos + 1
            <= bytes.len(),
        VerificationTypeInfo::UninitializedThisVariableInfo(v) => v.tag == 6 && bytes[pos] == 6
            && pos + 1 <= bytes.len(),
        VerificationTypeInfo::ObjectVariableInfo(v) => v.tag == 7 && bytes[pos] == 7
            && v.constant_pool_index == be16_at(bytes, pos + 1) && pos + 3 <= bytes.len(),
        VerificationTypeInfo::UninitializedVariableInfo(v) => v.tag == 8 && bytes[pos] == 8
            && v.offset == be16_at(bytes, pos + 1) && pos + 3 <= bytes.len(),
    }
}

/// The encoded size of a verification type datum: one byte of tag,
/// plus two of payload for the object and uninitialized forms.
pub open spec fn verification_type_size(info: VerificationTypeInfo) -> int {
    match info {
        VerificationTypeInfo::ObjectVariableInfo(_) => 3,
        VerificationTypeInfo::UninitializedVariableInfo(_) => 3,
        _ => 1,
    }
}

impl VerificationTypeInfo {
    /// Reads one verification type datum, dispatching on its tag
    /// byte; tags above 8 fail.
    pub fn read(r: &mut ByteReader) -> (res: Result<VerificationTypeInfo, ParseError>)
        requires
            old(r).pos <= old(r).bytes@.len(),
        ensures
            final(r).pos <= final(r).bytes@.len(),
            final(r).bytes@ == old(r).bytes@,
            final(r).pos >= old(r).pos,
            match res {
                Ok(info) => {
                    &&& is_verification_type_at(old(r).bytes@, old(r).pos as int, info)
                    &&& final(r).pos == old(r).pos + verification_type_size(info)
                },
                Err(e) => match e {
                    ParseError::Truncated => final(r).pos == old(r).pos || final(r).pos == old(
                        r,
                    ).pos + 1,
                    ParseError::BadVerificationTypeTag(t) => {
                        &&& old(r).pos < old(r).bytes@.len()
                        &&& t == old(r).bytes@[old(r).pos as int]
                        &&& t > 8
                    },
                    _ => false,
                },
            },
    {
        let tag = r.read_u8()?;
        match tag {
            0 => Ok(VerificationTypeInfo::TopVariableInfo(TopVariableInfo { tag })),
            1 => Ok(VerificationTypeInfo::IntegerVariableInfo(IntegerVariableInfo { tag })),
            2 => Ok(VerificationTypeInfo::FloatVariableInfo(FloatVariableInfo { tag })),
            3 => Ok(VerificationTypeInfo::DoubleVariableInfo(DoubleVariableInfo { tag })),
            4 => Ok(VerificationTypeInfo::LongVariableInfo(LongVariableInfo { tag })),
            5 => Ok(VerificationTypeInfo::NullVariableInfo(NullVariableInfo { tag })),
            6 => Ok(
                VerificationTypeInfo::UninitializedThisVariableInfo(
                    UninitializedThisVariableInfo { tag },
                ),
            ),
            7 => {
                let constant_pool_index = r.read_u16()?;
                Ok(
                    VerificationTypeInfo::ObjectVariableInfo(
                        ObjectVariableInfo { tag, constant_pool_index },
                    ),
                )
            },
            8 => {
                let offset = r.read_u16()?;
                Ok(
                    VerificationTypeInfo::UninitializedVariableInfo(
                        UninitializedVariableInfo { tag, offset },
                    ),
                )
            },
            _ => Err(ParseError::BadVerificationTypeTag(tag)),
        }
    }
}

} // verus!
