//! The instruction set: one variant per opcode of JVMS Table 6.5,
//! with the byte assignment stated as a specification function.
use vstd::prelude::*;

use crate::vm::errors::ExecutionError;

verus! {

#[derive(Clone, Copy, Debug, Eq, PartialEq)]
pub enum Opcode {
    // constant
    Nop,
    AConstNull,
    IConstM1,
    IConst0,
    IConst1,
    IConst2,
    IConst3,
    IConst4,
    IConst5,
    LConst0,
    LConst1,
    FConst0,
    FConst1,
    FConst2,
    DConst0,
    DConst1,
    BIpush,
    SIpush,
    Ldc,
    LdcW,
    Ldc2W,
    // load
    ILoad,
    LLoad,
    FLoad,
    DLoad,
    ALoad,
    ILoad0,
    ILoad1,
    ILoad2,
    ILoad3,
    LLoad0,
    LLoad1,
    LLoad2,
    LLoad3,
    FLoad0,
    FLoad1,
    FLoad2,
    FLoad3,
    DLoad0,
    DLoad1,
    DLoad2,
    DLoad3,
    ALoad0,
    ALoad1,
    ALoad2,
    ALoad3,
    IALoad,
    LALoad,
    FALoad,
    DALoad,
    AALoad,
    BALoad,
    CALoad,
    SALoad,
    // store
    IStore,
    LStore,
    FStore,
    DStore,
    AStore,
    IStore0,
    IStore1,
    IStore2,
    IStore3,
    LStore0,
    LStore1,
    LStore2,
    LStore3,
    FStore0,
    FStore1,
    FStore2,
    FStore3,
    DStore0,
    DStore1,
    DStore2,
    DStore3,
    AStore0,
    AStore1,
    AStore2,
    AStore3,
    IAStore,
    LAStore,
    FAStore,
    DAStore,
    AAStore,
    BAStore,
    CAStore,
    SAStore,
    // stack
    Pop,
    Pop2,
    Dup,
    DupX1,
    DupX2,
    Dup2,
    Dup2X1,
    Dup2X2,
    Swap,
    // math
    IAdd,
    LAdd,
    FAdd,
    DAdd,
    ISub,
    LSub,
    FSub,
    DSub,
    IMul,
    LMul,
    FMul,
    DMul,
    IDiv,
    LDiv,
    FDiv,
    DDiv,
    IRem,
    LRem,
    FRem,
    DRem,
    INeg,
    LNeg,
    FNeg,
    DNeg,
    IShl,
    LShl,
    IShr,
    LShr,
    IUShr,
    LUShr,
    IAnd,
    LAnd,
    IOr,
    LOr,
    IXor,
    LXor,
    IInc,
    // conversion
    I2L,
    I2F,
    I2D,
    L2I,
    L2F,
    L2D,
    F2I,
    F2L,
    F2D,
    D2I,
    D2L,
    D2F,
    I2B,
    I2C,
    I2S,
    // comparison
    LCmp,
    FCmpL,
    FCmpG,
    DCmpL,
    DCmpG,
    IfEq,
    IfNe,
    IfLt,
    IfGe,
    IfGt,
    IfLe,
    IfICmpEq,
    IfICmpNe,
    IfICmpLt,
    IfICmpGe,
    IfICmpGt,
    IfICmpLe,
    IfACmpEq,
    IfACmpNe,
    // control
    Goto,
    Jsr,
    Ret,
    TableSwitch,
    LookupSwitch,
    IReturn,
    LReturn,
    FReturn,
    DReturn,
    AReturn,
    Return,
    // reference
    GetStatic,
    PutStatic,
    GetField,
    PutField,
    InvokeVirtual,
    InvokeSpecial,
    InvokeStatic,
    InvokeInterface,
    InvokeDynamic,
    New,
    NewArray,
    ANewArray,
    ArrayLength,
    AThrow,
    CheckCast,
    InstanceOf,
    MonitorEnter,
    MonitorExit,
    // extended
    Wide,
    MultiANewArray,
    IfNull,
    IfNonNull,
    GotoW,
    JsrW,
    // reserved
    Breakpoint,
    Impdep1,
    Impdep2,
}

/// The byte assigned to each opcode by JVMS Table 6.5.
pub open spec fn opcode_byte(op: Opcode) -> u8 {
    match op {
        Opcode::Nop => 0x00,
        Opcode::AConstNull => 0x01,
        Opcode::IConstM1 => 0x02,
        Opcode::IConst0 => 0x03,
        Opcode::IConst1 => 0x04,
        Opcode::IConst2 => 0x05,
        Opcode::IConst3 => 0x06,
        Opcode::IConst4 => 0x07,
        Opcode::IConst5 => 0x08,
        Opcode::LConst0 => 0x09,
        Opcode::LConst1 => 0x0A,
        Opcode::FConst0 => 0x0B,
        Opcode::FConst1 => 0x0C,
        Opcode::FConst2 => 0x0D,
        Opcode::DConst0 => 0x0E,
        Opcode::DConst1 => 0x0F,
        Opcode::BIpush => 0x10,
        Opcode::SIpush => 0x11,
        Opcode::Ldc => 0x12,
        Opcode::LdcW => 0x13,
        Opcode::Ldc2W => 0x14,
        Opcode::ILoad => 0x15,
        Opcode::LLoad => 0x16,
        Opcode::FLoad => 0x17,
        Opcode::DLoad => 0x18,
        Opcode::ALoad => 0x19,
        Opcode::ILoad0 => 0x1a,
        Opcode::ILoad1 => 0x1b,
        Opcode::ILoad2 => 0x1c,
        Opcode::ILoad3 => 0x1d,
        Opcode::LLoad0 => 0x1e,
        Opcode::LLoad1 => 0x1f,
        Opcode::LLoad2 => 0x20,
        Opcode::LLoad3 => 0x21,
        Opcode::FLoad0 => 0x22,
        Opcode::FLoad1 => 0x23,
        Opcode::FLoad2 => 0x24,
        Opcode::FLoad3 => 0x25,
        Opcode::DLoad0 => 0x26,
        Opcode::DLoad1 => 0x27,
        Opcode::DLoad2 => 0x28,
        Opcode::DLoad3 => 0x29,
        Opcode::ALoad0 => 0x2a,
        Opcode::ALoad1 => 0x2b,
        Opcode::ALoad2 => 0x2c,
        Opcode::ALoad3 => 0x2d,
        Opcode::IALoad => 0x2e,
        Opcode::LALoad => 0x2f,
        Opcode::FALoad => 0x30,
        Opcode::DALoad => 0x31,
        Opcode::AALoad => 0x32,
        Opcode::BALoad => 0x33,
        Opcode::CALoad => 0x34,
        Opcode::SALoad => 0x35,
        Opcode::IStore => 0x36,
        Opcode::LStore => 0x37,
        Opcode::FStore => 0x38,
        Opcode::DStore => 0x39,
        Opcode::AStore => 0x3a,
        Opcode::IStore0 => 0x3b,
        Opcode::IStore1 => 0x3c,
        Opcode::IStore2 => 0x3d,
        Opcode::IStore3 => 0x3e,
        Opcode::LStore0 => 0x3f,
        Opcode::LStore1 => 0x40,
        Opcode::LStore2 => 0x41,
        Opcode::LStore3 => 0x42,
        Opcode::FStore0 => 0x43,
        Opcode::FStore1 => 0x44,
        Opcode::FStore2 => 0x45,
        Opcode::FStore3 => 0x46,
        Opcode::DStore0 => 0x47,
        Opcode::DStore1 => 0x48,
        Opcode::DStore2 => 0x49,
        Opcode::DStore3 => 0x4a,
        Opcode::AStore0 => 0x4b,
        Opcode::AStore1 => 0x4c,
        Opcode::AStore2 => 0x4d,
        Opcode::AStore3 => 0x4e,
        Opcode::IAStore => 0x4f,
        Opcode::LAStore => 0x50,
        Opcode::FAStore => 0x51,
        Opcode::DAStore => 0x52,
        Opcode::AAStore => 0x53,
        Opcode::BAStore => 0x54,
        Opcode::CAStore => 0x55,
        Opcode::SAStore => 0x56,
        Opcode::Pop => 0x57,
        Opcode::Pop2 => 0x58,
        Opcode::Dup => 0x59,
        Opcode::DupX1 => 0x5a,
        Opcode::DupX2 => 0x5b,
        Opcode::Dup2 => 0x5c,
        Opcode::Dup2X1 => 0x5d,
        Opcode::Dup2X2 => 0x5e,
        Opcode::Swap => 0x5f,
        Opcode::IAdd => 0x60,
        Opcode::LAdd => 0x61,
        Opcode::FAdd => 0x62,
        Opcode::DAdd => 0x63,
        Opcode::ISub => 0x64,
        Opcode::LSub => 0x65,
        Opcode::FSub => 0x66,
        Opcode::DSub => 0x67,
        Opcode::IMul => 0x68,
        Opcode::LMul => 0x69,
        Opcode::FMul => 0x6a,
        Opcode::DMul => 0x6b,
        Opcode::IDiv => 0x6c,
        Opcode::LDiv => 0x6d,
        Opcode::FDiv => 0x6e,
        Opcode::DDiv => 0x6f,
        Opcode::IRem => 0x70,
        Opcode::LRem => 0x71,
        Opcode::FRem => 0x72,
        Opcode::DRem => 0x73,
        Opcode::INeg => 0x74,
        Opcode::LNeg => 0x75,
        Opcode::FNeg => 0x76,
        Opcode::DNeg => 0x77,
        Opcode::IShl => 0x78,
        Opcode::LShl => 0x79,
        Opcode::IShr => 0x7a,
        Opcode::LShr => 0x7b,
        Opcode::IUShr => 0x7c,
        Opcode::LUShr => 0x7d,
        Opcode::IAnd => 0x7e,
        Opcode::LAnd => 0x7f,
        Opcode::IOr => 0x80,
        Opcode::LOr => 0x81,
        Opcode::IXor => 0x82,
        Opcode::LXor => 0x83,
        Opcode::IInc => 0x84,
        Opcode::I2L => 0x85,
        Opcode::I2F => 0x86,
        Opcode::I2D => 0x87,
        Opcode::L2I => 0x88,
        Opcode::L2F => 0x89,
        Opcode::L2D => 0x8a,
        Opcode::F2I => 0x8b,
        Opcode::F2L => 0x8c,
        Opcode::F2D => 0x8d,
        Opcode::D2I => 0x8e,
        Opcode::D2L => 0x8f,
        Opcode::D2F => 0x90,
        Opcode::I2B => 0x91,
        Opcode::I2C => 0x92,
        Opcode::I2S => 0x93,
        Opcode::LCmp => 0x94,
        Opcode::FCmpL => 0x95,
        Opcode::FCmpG => 0x96,
        Opcode::DCmpL => 0x97,
        Opcode::DCmpG => 0x98,
        Opcode::IfEq => 0x99,
        Opcode::IfNe => 0x9a,
        Opcode::IfLt => 0x9b,
        Opcode::IfGe => 0x9c,
        Opcode::IfGt => 0x9d,
        Opcode::IfLe => 0x9e,
        Opcode::IfICmpEq => 0x9f,
        Opcode::IfICmpNe => 0xa0,
        Opcode::IfICmpLt => 0xa1,
        Opcode::IfICmpGe => 0xa2,
        Opcode::IfICmpGt => 0xa3,
        Opcode::IfICmpLe => 0xa4,
        Opcode::IfACmpEq => 0xa5,
        Opcode::IfACmpNe => 0xa6,
        Opcode::Goto => 0xa7,
        Opcode::Jsr => 0xa8,
        Opcode::Ret => 0xa9,
        Opcode::TableSwitch => 0xaa,
        Opcode::LookupSwitch => 0xab,
        Opcode::IReturn => 0xac,
        Opcode::LReturn => 0xad,
        Opcode::FReturn => 0xae,
        Opcode::DReturn => 0xaf,
        Opcode::AReturn => 0xb0,
        Opcode::Return => 0xb1,
        Opcode::GetStatic => 0xb2,
        Opcode::PutStatic => 0xb3,
        Opcode::GetField => 0xb4,
        Opcode::PutField => 0xb5,
        Opcode::InvokeVirtual => 0xb6,
        Opcode::InvokeSpecial => 0xb7,
        Opcode::InvokeStatic => 0xb8,
        Opcode::InvokeInterface => 0xb9,
        Opcode::InvokeDynamic => 0xba,
        Opcode::New => 0xbb,
        Opcode::NewArray => 0xbc,
        Opcode::ANewArray => 0xbd,
        Opcode::ArrayLength => 0xbe,
        Opcode::AThrow => 0xbf,
        Opcode::CheckCast => 0xc0,
        Opcode::InstanceOf => 0xc1,
        Opcode::MonitorEnter => 0xc2,
        Opcode::MonitorExit => 0xc3,
        Opcode::Wide => 0xc4,
        Opcode::MultiANewArray => 0xc5,
        Opcode::IfNull => 0xc6,
        Opcode::IfNonNull => 0xc7,
        Opcode::GotoW => 0xc8,
        Opcode::JsrW => 0xc9,
        Opcode::Breakpoint => 0xca,
        Opcode::Impdep1 => 0xfe,
        Opcode::Impdep2 => 0xff,
    }
}

/// True of the bytes that name an opcode; all others fail to decode.
pub open spec fn is_opcode_byte(b: u8) -> bool {
    b <= 0xca || b == 0xfe || b == 0xff
}

/// The opcode a byte decodes to. On the bytes outside JVMS Table
/// 6.5, which never decode, the value is immaterial.
pub open spec fn opcode_of(b: u8) -> Opcode {
    match b {
        0x00 => Opcode::Nop,
        0x01 => Opcode::AConstNull,
        0x02 => Opcode::IConstM1,
        0x03 => Opcode::IConst0,
        0x04 => Opcode::IConst1,
        0x05 => Opcode::IConst2,
        0x06 => Opcode::IConst3,
        0x07 => Opcode::IConst4,
        0x08 => Opcode::IConst5,
        0x09 => Opcode::LConst0,
        0x0A => Opcode::LConst1,
        0x0B => Opcode::FConst0,
        0x0C => Opcode::FConst1,
        0x0D => Opcode::FConst2,
        0x0E => Opcode::DConst0,
        0x0F => Opcode::DConst1,
        0x10 => Opcode::BIpush,
        0x11 => Opcode::SIpush,
        0x12 => Opcode::Ldc,
        0x13 => Opcode::LdcW,
        0x14 => Opcode::Ldc2W,
        0x15 => Opcode::ILoad,
        0x16 => Opcode::LLoad,
        0x17 => Opcode::FLoad,
        0x18 => Opcode::DLoad,
        0x19 => Opcode::ALoad,
        0x1a => Opcode::ILoad0,
        0x1b => Opcode::ILoad1,
        0x1c => Opcode::ILoad2,
        0x1d => Opcode::ILoad3,
        0x1e => Opcode::LLoad0,
        0x1f => Opcode::LLoad1,
        0x20 => Opcode::LLoad2,
        0x21 => Opcode::LLoad3,
        0x22 => Opcode::FLoad0,
        0x23 => Opcode::FLoad1,
        0x24 => Opcode::FLoad2,
        0x25 => Opcode::FLoad3,
        0x26 => Opcode::DLoad0,
        0x27 => Opcode::DLoad1,
        0x28 => Opcode::DLoad2,
        0x29 => Opcode::DLoad3,
        0x2a => Opcode::ALoad0,
        0x2b => Opcode::ALoad1,
        0x2c => Opcode::ALoad2,
        0x2d => Opcode::ALoad3,
        0x2e => Opcode::IALoad,
        0x2f => Opcode::LALoad,
        0x30 => Opcode::FALoad,
        0x31 => Opcode::DALoad,
        0x32 => Opcode::AALoad,
        0x33 => Opcode::BALoad,
        0x34 => Opcode::CALoad,
        0x35 => Opcode::SALoad,
        0x36 => Opcode::IStore,
        0x37 => Opcode::LStore,
        0x38 => Opcode::FStore,
        0x39 => Opcode::DStore,
        0x3a => Opcode::AStore,
        0x3b => Opcode::IStore0,
        0x3c => Opcode::IStore1,
        0x3d => Opcode::IStore2,
        0x3e => Opcode::IStore3,
        0x3f => Opcode::LStore0,
        0x40 => Opcode::LStore1,
        0x41 => Opcode::LStore2,
        0x42 => Opcode::LStore3,
        0x43 => Opcode::FStore0,
        0x44 => Opcode::FStore1,
        0x45 => Opcode::FStore2,
        0x46 => Opcode::FStore3,
        0x47 => Opcode::DStore0,
        0x48 => Opcode::DStore1,
        0x49 => Opcode::DStore2,
        0x4a => Opcode::DStore3,
        0x4b => Opcode::AStore0,
        0x4c => Opcode::AStore1,
        0x4d => Opcode::AStore2,
        0x4e => Opcode::AStore3,
        0x4f => Opcode::IAStore,
        0x50 => Opcode::LAStore,
        0x51 => Opcode::FAStore,
        0x52 => Opcode::DAStore,
        0x53 => Opcode::AAStore,
        0x54 => Opcode::BAStore,
        0x55 => Opcode::CAStore,
        0x56 => Opcode::SAStore,
        0x57 => Opcode::Pop,
        0x58 => Opcode::Pop2,
        0x59 => Opcode::Dup,
        0x5a => Opcode::DupX1,
        0x5b => Opcode::DupX2,
        0x5c => Opcode::Dup2,
        0x5d => Opcode::Dup2X1,
        0x5e => Opcode::Dup2X2,
        0x5f => Opcode::Swap,
        0x60 => Opcode::IAdd,
        0x61 => Opcode::LAdd,
        0x62 => Opcode::FAdd,
        0x63 => Opcode::DAdd,
        0x64 => Opcode::ISub,
        0x65 => Opcode::LSub,
        0x66 => Opcode::FSub,
        0x67 => Opcode::DSub,
        0x68 => Opcode::IMul,
        0x69 => Opcode::LMul,
        0x6a => Opcode::FMul,
        0x6b => Opcode::DMul,
        0x6c => Opcode::IDiv,
        0x6d => Opcode::LDiv,
        0x6e => Opcode::FDiv,
        0x6f => Opcode::DDiv,
        0x70 => Opcode::IRem,
        0x71 => Opcode::LRem,
        0x72 => Opcode::FRem,
        0x73 => Opcode::DRem,
        0x74 => Opcode::INeg,
        0x75 => Opcode::LNeg,
        0x76 => Opcode::FNeg,
        0x77 => Opcode::DNeg,
        0x78 => Opcode::IShl,
        0x79 => Opcode::LShl,
        0x7a => Opcode::IShr,
        0x7b => Opcode::LShr,
        0x7c => Opcode::IUShr,
        0x7d => Opcode::LUShr,
        0x7e => Opcode::IAnd,
        0x7f => Opcode::LAnd,
        0x80 => Opcode::IOr,
        0x81 => Opcode::LOr,
        0x82 => Opcode::IXor,
        0x83 => Opcode::LXor,
        0x84 => Opcode::IInc,
        0x85 => Opcode::I2L,
        0x86 => Opcode::I2F,
        0x87 => Opcode::I2D,
        0x88 => Opcode::L2I,
        0x89 => Opcode::L2F,
        0x8a => Opcode::L2D,
        0x8b => Opcode::F2I,
        0x8c => Opcode::F2L,
        0x8d => Opcode::F2D,
        0x8e => Opcode::D2I,
        0x8f => Opcode::D2L,
        0x90 => Opcode::D2F,
        0x91 => Opcode::I2B,
        0x92 => Opcode::I2C,
        0x93 => Opcode::I2S,
        0x94 => Opcode::LCmp,
        0x95 => Opcode::FCmpL,
        0x96 => Opcode::FCmpG,
        0x97 => Opcode::DCmpL,
        0x98 => Opcode::DCmpG,
        0x99 => Opcode::IfEq,
        0x9a => Opcode::IfNe,
        0x9b => Opcode::IfLt,
        0x9c => Opcode::IfGe,
        0x9d => Opcode::IfGt,
        0x9e => Opcode::IfLe,
        0x9f => Opcode::IfICmpEq,
        0xa0 => Opcode::IfICmpNe,
        0xa1 => Opcode::IfICmpLt,
        0xa2 => Opcode::IfICmpGe,
        0xa3 => Opcode::IfICmpGt,
        0xa4 => Opcode::IfICmpLe,
        0xa5 => Opcode::IfACmpEq,
        0xa6 => Opcode::IfACmpNe,
        0xa7 => Opcode::Goto,
        0xa8 => Opcode::Jsr,
        0xa9 => Opcode::Ret,
        0xaa => Opcode::TableSwitch,
        0xab => Opcode::LookupSwitch,
        0xac => Opcode::IReturn,
        0xad => Opcode::LReturn,
        0xae => Opcode::FReturn,
        0xaf => Opcode::DReturn,
        0xb0 => Opcode::AReturn,
        0xb1 => Opcode::Return,
        0xb2 => Opcode::GetStatic,
        0xb3 => Opcode::PutStatic,
        0xb4 => Opcode::GetField,
        0xb5 => Opcode::PutField,
        0xb6 => Opcode::InvokeVirtual,
        0xb7 => Opcode::InvokeSpecial,
        0xb8 => Opcode::InvokeStatic,
        0xb9 => Opcode::InvokeInterface,
        0xba => Opcode::InvokeDynamic,
        0xbb => Opcode::New,
        0xbc => Opcode::NewArray,
        0xbd => Opcode::ANewArray,
        0xbe => Opcode::ArrayLength,
        0xbf => Opcode::AThrow,
        0xc0 => Opcode::CheckCast,
        0xc1 => Opcode::InstanceOf,
        0xc2 => Opcode::MonitorEnter,
        0xc3 => Opcode::MonitorExit,
        0xc4 => Opcode::Wide,
        0xc5 => Opcode::MultiANewArray,
        0xc6 => Opcode::IfNull,
        0xc7 => Opcode::IfNonNull,
        0xc8 => Opcode::GotoW,
        0xc9 => Opcode::JsrW,
        0xca => Opcode::Breakpoint,
        0xfe => Opcode::Impdep1,
        0xff => Opcode::Impdep2,
        _ => Opcode::Nop,
    }
}

impl Opcode {
    /// The encoding of this opcode as a code-stream byte.
    pub fn as_byte(&self) -> (b: u8)
        ensures
            b == opcode_byte(*self),
    {
        match self {
            Opcode::Nop => 0x00,
            Opcode::AConstNull => 0x01,
            Opcode::IConstM1 => 0x02,
            Opcode::IConst0 => 0x03,
            Opcode::IConst1 => 0x04,
            Opcode::IConst2 => 0x05,
            Opcode::IConst3 => 0x06,
            Opcode::IConst4 => 0x07,
            Opcode::IConst5 => 0x08,
            Opcode::LConst0 => 0x09,
            Opcode::LConst1 => 0x0A,
            Opcode::FConst0 => 0x0B,
            Opcode::FConst1 => 0x0C,
            Opcode::FConst2 => 0x0D,
            Opcode::DConst0 => 0x0E,
            Opcode::DConst1 => 0x0F,
            Opcode::BIpush => 0x10,
            Opcode::SIpush => 0x11,
            Opcode::Ldc => 0x12,
            Opcode::LdcW => 0x13,
            Opcode::Ldc2W => 0x14,
            Opcode::ILoad => 0x15,
            Opcode::LLoad => 0x16,
            Opcode::FLoad => 0x17,
            Opcode::DLoad => 0x18,
            Opcode::ALoad => 0x19,
            Opcode::ILoad0 => 0x1a,
            Opcode::ILoad1 => 0x1b,
            Opcode::ILoad2 => 0x1c,
            Opcode::ILoad3 => 0x1d,
            Opcode::LLoad0 => 0x1e,
            Opcode::LLoad1 => 0x1f,
            Opcode::LLoad2 => 0x20,
            Opcode::LLoad3 => 0x21,
            Opcode::FLoad0 => 0x22,
            Opcode::FLoad1 => 0x23,
            Opcode::FLoad2 => 0x24,
            Opcode::FLoad3 => 0x25,
            Opcode::DLoad0 => 0x26,
            Opcode::DLoad1 => 0x27,
            Opcode::DLoad2 => 0x28,
            Opcode::DLoad3 => 0x29,
            Opcode::ALoad0 => 0x2a,
            Opcode::ALoad1 => 0x2b,
            Opcode::ALoad2 => 0x2c,
            Opcode::ALoad3 => 0x2d,
            Opcode::IALoad => 0x2e,
            Opcode::LALoad => 0x2f,
            Opcode::FALoad => 0x30,
            Opcode::DALoad => 0x31,
            Opcode::AALoad => 0x32,
            Opcode::BALoad => 0x33,
            Opcode::CALoad => 0x34,
            Opcode::SALoad => 0x35,
            Opcode::IStore => 0x36,
            Opcode::LStore => 0x37,
            Opcode::FStore => 0x38,
            Opcode::DStore => 0x39,
            Opcode::AStore => 0x3a,
            Opcode::IStore0 => 0x3b,
            Opcode::IStore1 => 0x3c,
            Opcode::IStore2 => 0x3d,
            Opcode::IStore3 => 0x3e,
            Opcode::LStore0 => 0x3f,
            Opcode::LStore1 => 0x40,
            Opcode::LStore2 => 0x41,
            Opcode::LStore3 => 0x42,
            Opcode::FStore0 => 0x43,
            Opcode::FStore1 => 0x44,
            Opcode::FStore2 => 0x45,
            Opcode::FStore3 => 0x46,
            Opcode::DStore0 => 0x47,
            Opcode::DStore1 => 0x48,
            Opcode::DStore2 => 0x49,
            Opcode::DStore3 => 0x4a,
            Opcode::AStore0 => 0x4b,
            Opcode::AStore1 => 0x4c,
            Opcode::AStore2 => 0x4d,
            Opcode::AStore3 => 0x4e,
            Opcode::IAStore => 0x4f,
            Opcode::LAStore => 0x50,
            Opcode::FAStore => 0x51,
            Opcode::DAStore => 0x52,
            Opcode::AAStore => 0x53,
            Opcode::BAStore => 0x54,
            Opcode::CAStore => 0x55,
            Opcode::SAStore => 0x56,
            Opcode::Pop => 0x57,
            Opcode::Pop2 => 0x58,
            Opcode::Dup => 0x59,
            Opcode::DupX1 => 0x5a,
            Opcode::DupX2 => 0x5b,
            Opcode::Dup2 => 0x5c,
            Opcode::Dup2X1 => 0x5d,
            Opcode::Dup2X2 => 0x5e,
            Opcode::Swap => 0x5f,
            Opcode::IAdd => 0x60,
            Opcode::LAdd => 0x61,
            Opcode::FAdd => 0x62,
            Opcode::DAdd => 0x63,
            Opcode::ISub => 0x64,
            Opcode::LSub => 0x65,
            Opcode::FSub => 0x66,
            Opcode::DSub => 0x67,
            Opcode::IMul => 0x68,
            Opcode::LMul => 0x69,
            Opcode::FMul => 0x6a,
            Opcode::DMul => 0x6b,
            Opcode::IDiv => 0x6c,
            Opcode::LDiv => 0x6d,
            Opcode::FDiv => 0x6e,
            Opcode::DDiv => 0x6f,
            Opcode::IRem => 0x70,
            Opcode::LRem => 0x71,
            Opcode::FRem => 0x72,
            Opcode::DRem => 0x73,
            Opcode::INeg => 0x74,
            Opcode::LNeg => 0x75,
            Opcode::FNeg => 0x76,
            Opcode::DNeg => 0x77,
            Opcode::IShl => 0x78,
            Opcode::LShl => 0x79,
            Opcode::IShr => 0x7a,
            Opcode::LShr => 0x7b,
            Opcode::IUShr => 0x7c,
            Opcode::LUShr => 0x7d,
            Opcode::IAnd => 0x7e,
            Opcode::LAnd => 0x7f,
            Opcode::IOr => 0x80,
            Opcode::LOr => 0x81,
            Opcode::IXor => 0x82,
            Opcode::LXor => 0x83,
            Opcode::IInc => 0x84,
            Opcode::I2L => 0x85,
            Opcode::I2F => 0x86,
            Opcode::I2D => 0x87,
            Opcode::L2I => 0x88,
            Opcode::L2F => 0x89,
            Opcode::L2D => 0x8a,
            Opcode::F2I => 0x8b,
            Opcode::F2L => 0x8c,
            Opcode::F2D => 0x8d,
            Opcode::D2I => 0x8e,
            Opcode::D2L => 0x8f,
            Opcode::D2F => 0x90,
            Opcode::I2B => 0x91,
            Opcode::I2C => 0x92,
            Opcode::I2S => 0x93,
            Opcode::LCmp => 0x94,
            Opcode::FCmpL => 0x95,
            Opcode::FCmpG => 0x96,
            Opcode::DCmpL => 0x97,
            Opcode::DCmpG => 0x98,
            Opcode::IfEq => 0x99,
            Opcode::IfNe => 0x9a,
            Opcode::IfLt => 0x9b,
            Opcode::IfGe => 0x9c,
            Opcode::IfGt => 0x9d,
            Opcode::IfLe => 0x9e,
            Opcode::IfICmpEq => 0x9f,
            Opcode::IfICmpNe => 0xa0,
            Opcode::IfICmpLt => 0xa1,
            Opcode::IfICmpGe => 0xa2,
            Opcode::IfICmpGt => 0xa3,
            Opcode::IfICmpLe => 0xa4,
            Opcode::IfACmpEq => 0xa5,
            Opcode::IfACmpNe => 0xa6,
            Opcode::Goto => 0xa7,
            Opcode::Jsr => 0xa8,
            Opcode::Ret => 0xa9,
            Opcode::TableSwitch => 0xaa,
            Opcode::LookupSwitch => 0xab,
            Opcode::IReturn => 0xac,
            Opcode::LReturn => 0xad,
            Opcode::FReturn => 0xae,
            Opcode::DReturn => 0xaf,
            Opcode::AReturn => 0xb0,
            Opcode::Return => 0xb1,
            Opcode::GetStatic => 0xb2,
            Opcode::PutStatic => 0xb3,
            Opcode::GetField => 0xb4,
            Opcode::PutField => 0xb5,
            Opcode::InvokeVirtual => 0xb6,
            Opcode::InvokeSpecial => 0xb7,
            Opcode::InvokeStatic => 0xb8,
            Opcode::InvokeInterface => 0xb9,
            Opcode::InvokeDynamic => 0xba,
            Opcode::New => 0xbb,
            Opcode::NewArray => 0xbc,
            Opcode::ANewArray => 0xbd,
            Opcode::ArrayLength => 0xbe,
            Opcode::AThrow => 0xbf,
            Opcode::CheckCast => 0xc0,
            Opcode::InstanceOf => 0xc1,
            Opcode::MonitorEnter => 0xc2,
            Opcode::MonitorExit => 0xc3,
            Opcode::Wide => 0xc4,
            Opcode::MultiANewArray => 0xc5,
            Opcode::IfNull => 0xc6,
            Opcode::IfNonNull => 0xc7,
            Opcode::GotoW => 0xc8,
            Opcode::JsrW => 0xc9,
            Opcode::Breakpoint => 0xca,
            Opcode::Impdep1 => 0xfe,
            Opcode::Impdep2 => 0xff,
        }
    }

    /// Decodes a code-stream byte into an opcode; bytes outside JVMS
    /// Table 6.5 are rejected.
    pub fn from_byte(b: u8) -> (r: Result<Opcode, ExecutionError>)
        ensures
            match r {
                Ok(op) => opcode_byte(op) == b && op == opcode_of(b) && is_opcode_byte(b),
                Err(e) => e == ExecutionError::DecodeError(b) && !is_opcode_byte(b),
            },
    {
        match b {
            0x00 => Ok(Opcode::Nop),
            0x01 => Ok(Opcode::AConstNull),
            0x02 => Ok(Opcode::IConstM1),
            0x03 => Ok(Opcode::IConst0),
            0x04 => Ok(Opcode::IConst1),
            0x05 => Ok(Opcode::IConst2),
            0x06 => Ok(Opcode::IConst3),
            0x07 => Ok(Opcode::IConst4),
            0x08 => Ok(Opcode::IConst5),
            0x09 => Ok(Opcode::LConst0),
            0x0A => Ok(Opcode::LConst1),
            0x0B => Ok(Opcode::FConst0),
            0x0C => Ok(Opcode::FConst1),
            0x0D => Ok(Opcode::FConst2),
            0x0E => Ok(Opcode::DConst0),
            0x0F => Ok(Opcode::DConst1),
            0x10 => Ok(Opcode::BIpush),
            0x11 => Ok(Opcode::SIpush),
            0x12 => Ok(Opcode::Ldc),
            0x13 => Ok(Opcode::LdcW),
            0x14 => Ok(Opcode::Ldc2W),
            0x15 => Ok(Opcode::ILoad),
            0x16 => Ok(Opcode::LLoad),
            0x17 => Ok(Opcode::FLoad),
            0x18 => Ok(Opcode::DLoad),
            0x19 => Ok(Opcode::ALoad),
            0x1a => Ok(Opcode::ILoad0),
            0x1b => Ok(Opcode::ILoad1),
            0x1c => Ok(Opcode::ILoad2),
            0x1d => Ok(Opcode::ILoad3),
            0x1e => Ok(Opcode::LLoad0),
            0x1f => Ok(Opcode::LLoad1),
            0x20 => Ok(Opcode::LLoad2),
            0x21 => Ok(Opcode::LLoad3),
            0x22 => Ok(Opcode::FLoad0),
            0x23 => Ok(Opcode::FLoad1),
            0x24 => Ok(Opcode::FLoad2),
            0x25 => Ok(Opcode::FLoad3),
            0x26 => Ok(Opcode::DLoad0),
            0x27 => Ok(Opcode::DLoad1),
            0x28 => Ok(Opcode::DLoad2),
            0x29 => Ok(Opcode::DLoad3),
            0x2a => Ok(Opcode::ALoad0),
            0x2b => Ok(Opcode::ALoad1),
            0x2c => Ok(Opcode::ALoad2),
            0x2d => Ok(Opcode::ALoad3),
            0x2e => Ok(Opcode::IALoad),
            0x2f => Ok(Opcode::LALoad),
            0x30 => Ok(Opcode::FALoad),
            0x31 => Ok(Opcode::DALoad),
            0x32 => Ok(Opcode::AALoad),
            0x33 => Ok(Opcode::BALoad),
            0x34 => Ok(Opcode::CALoad),
            0x35 => Ok(Opcode::SALoad),
            0x36 => Ok(Opcode::IStore),
            0x37 => Ok(Opcode::LStore),
            0x38 => Ok(Opcode::FStore),
            0x39 => Ok(Opcode::DStore),
            0x3a => Ok(Opcode::AStore),
            0x3b => Ok(Opcode::IStore0),
            0x3c => Ok(Opcode::IStore1),
            0x3d => Ok(Opcode::IStore2),
            0x3e => Ok(Opcode::IStore3),
            0x3f => Ok(Opcode::LStore0),
            0x40 => Ok(Opcode::LStore1),
            0x41 => Ok(Opcode::LStore2),
            0x42 => Ok(Opcode::LStore3),
            0x43 => Ok(Opcode::FStore0),
            0x44 => Ok(Opcode::FStore1),
            0x45 => Ok(Opcode::FStore2),
            0x46 => Ok(Opcode::FStore3),
            0x47 => Ok(Opcode::DStore0),
            0x48 => Ok(Opcode::DStore1),
            0x49 => Ok(Opcode::DStore2),
            0x4a => Ok(Opcode::DStore3),
            0x4b => Ok(Opcode::AStore0),
            0x4c => Ok(Opcode::AStore1),
            0x4d => Ok(Opcode::AStore2),
            0x4e => Ok(Opcode::AStore3),
            0x4f => Ok(Opcode::IAStore),
            0x50 => Ok(Opcode::LAStore),
            0x51 => Ok(Opcode::FAStore),
            0x52 => Ok(Opcode::DAStore),
            0x53 => Ok(Opcode::AAStore),
            0x54 => Ok(Opcode::BAStore),
            0x55 => Ok(Opcode::CAStore),
            0x56 => Ok(Opcode::SAStore),
            0x57 => Ok(Opcode::Pop),
            0x58 => Ok(Opcode::Pop2),
            0x59 => Ok(Opcode::Dup),
            0x5a => Ok(Opcode::DupX1),
            0x5b => Ok(Opcode::DupX2),
            0x5c => Ok(Opcode::Dup2),
            0x5d => Ok(Opcode::Dup2X1),
            0x5e => Ok(Opcode::Dup2X2),
            0x5f => Ok(Opcode::Swap),
            0x60 => Ok(Opcode::IAdd),
            0x61 => Ok(Opcode::LAdd),
            0x62 => Ok(Opcode::FAdd),
            0x63 => Ok(Opcode::DAdd),
            0x64 => Ok(Opcode::ISub),
            0x65 => Ok(Opcode::LSub),
            0x66 => Ok(Opcode::FSub),
            0x67 => Ok(Opcode::DSub),
            0x68 => Ok(Opcode::IMul),
            0x69 => Ok(Opcode::LMul),
            0x6a => Ok(Opcode::FMul),
            0x6b => Ok(Opcode::DMul),
            0x6c => Ok(Opcode::IDiv),
            0x6d => Ok(Opcode::LDiv),
            0x6e => Ok(Opcode::FDiv),
            0x6f => Ok(Opcode::DDiv),
            0x70 => Ok(Opcode::IRem),
            0x71 => Ok(Opcode::LRem),
            0x72 => Ok(Opcode::FRem),
            0x73 => Ok(Opcode::DRem),
            0x74 => Ok(Opcode::INeg),
            0x75 => Ok(Opcode::LNeg),
            0x76 => Ok(Opcode::FNeg),
            0x77 => Ok(Opcode::DNeg),
            0x78 => Ok(Opcode::IShl),
            0x79 => Ok(Opcode::LShl),
            0x7a => Ok(Opcode::IShr),
            0x7b => Ok(Opcode::LShr),
            0x7c => Ok(Opcode::IUShr),
            0x7d => Ok(Opcode::LUShr),
            0x7e => Ok(Opcode::IAnd),
            0x7f => Ok(Opcode::LAnd),
            0x80 => Ok(Opcode::IOr),
            0x81 => Ok(Opcode::LOr),
            0x82 => Ok(Opcode::IXor),
            0x83 => Ok(Opcode::LXor),
            0x84 => Ok(Opcode::IInc),
            0x85 => Ok(Opcode::I2L),
            0x86 => Ok(Opcode::I2F),
            0x87 => Ok(Opcode::I2D),
            0x88 => Ok(Opcode::L2I),
            0x89 => Ok(Opcode::L2F),
            0x8a => Ok(Opcode::L2D),
            0x8b => Ok(Opcode::F2I),
            0x8c => Ok(Opcode::F2L),
            0x8d => Ok(Opcode::F2D),
            0x8e => Ok(Opcode::D2I),
            0x8f => Ok(Opcode::D2L),
            0x90 => Ok(Opcode::D2F),
            0x91 => Ok(Opcode::I2B),
            0x92 => Ok(Opcode::I2C),
            0x93 => Ok(Opcode::I2S),
            0x94 => Ok(Opcode::LCmp),
            0x95 => Ok(Opcode::FCmpL),
            0x96 => Ok(Opcode::FCmpG),
            0x97 => Ok(Opcode::DCmpL),
            0x98 => Ok(Opcode::DCmpG),
            0x99 => Ok(Opcode::IfEq),
            0x9a => Ok(Opcode::IfNe),
            0x9b => Ok(Opcode::IfLt),
            0x9c => Ok(Opcode::IfGe),
            0x9d => Ok(Opcode::IfGt),
            0x9e => Ok(Opcode::IfLe),
            0x9f => Ok(Opcode::IfICmpEq),
            0xa0 => Ok(Opcode::IfICmpNe),
            0xa1 => Ok(Opcode::IfICmpLt),
            0xa2 => Ok(Opcode::IfICmpGe),
            0xa3 => Ok(Opcode::IfICmpGt),
            0xa4 => Ok(Opcode::IfICmpLe),
            0xa5 => Ok(Opcode::IfACmpEq),
            0xa6 => Ok(Opcode::IfACmpNe),
            0xa7 => Ok(Opcode::Goto),
            0xa8 => Ok(Opcode::Jsr),
            0xa9 => Ok(Opcode::Ret),
            0xaa => Ok(Opcode::TableSwitch),
            0xab => Ok(Opcode::LookupSwitch),
            0xac => Ok(Opcode::IReturn),
            0xad => Ok(Opcode::LReturn),
            0xae => Ok(Opcode::FReturn),
            0xaf => Ok(Opcode::DReturn),
            0xb0 => Ok(Opcode::AReturn),
            0xb1 => Ok(Opcode::Return),
            0xb2 => Ok(Opcode::GetStatic),
            0xb3 => Ok(Opcode::PutStatic),
            0xb4 => Ok(Opcode::GetField),
            0xb5 => Ok(Opcode::PutField),
            0xb6 => Ok(Opcode::InvokeVirtual),
            0xb7 => Ok(Opcode::InvokeSpecial),
            0xb8 => Ok(Opcode::InvokeStatic),
            0xb9 => Ok(Opcode::InvokeInterface),
            0xba => Ok(Opcode::InvokeDynamic),
            0xbb => Ok(Opcode::New),
            0xbc => Ok(Opcode::NewArray),
            0xbd => Ok(Opcode::ANewArray),
            0xbe => Ok(Opcode::ArrayLength),
            0xbf => Ok(Opcode::AThrow),
            0xc0 => Ok(Opcode::CheckCast),
            0xc1 => Ok(Opcode::InstanceOf),
            0xc2 => Ok(Opcode::MonitorEnter),
            0xc3 => Ok(Opcode::MonitorExit),
            0xc4 => Ok(Opcode::Wide),
            0xc5 => Ok(Opcode::MultiANewArray),
            0xc6 => Ok(Opcode::IfNull),
            0xc7 => Ok(Opcode::IfNonNull),
            0xc8 => Ok(Opcode::GotoW),
            0xc9 => Ok(Opcode::JsrW),
            0xca => Ok(Opcode::Breakpoint),
            0xfe => Ok(Opcode::Impdep1),
            0xff => Ok(Opcode::Impdep2),
            _ => Err(ExecutionError::DecodeError(b)),
        }
    }
}

} // verus!
