//! Class, field and method access and property flags: each declared
//! bit of the JVMS flag words, with its mask.
use vstd::prelude::*;

verus! {

/// Class access and property flags (JVMS Table 4.1-B).
#[derive(Clone, Copy, Debug, PartialEq, Eq, Structural)]
pub enum ClassAccessPropertyFlags {
    Public,
    Final,
    Super,
    Interface,
    Abstract,
}

/// The bit each class flag occupies in the access flag word.
pub open spec fn class_flag_mask(f: ClassAccessPropertyFlags) -> u16 {
    match f {
        ClassAccessPropertyFlags::Public => 0x0001,
        ClassAccessPropertyFlags::Final => 0x0010,
        ClassAccessPropertyFlags::Super => 0x0020,
        ClassAccessPropertyFlags::Interface => 0x2000,
        ClassAccessPropertyFlags::Abstract => 0x4000,
    }
}

impl ClassAccessPropertyFlags {
    /// The bit this flag occupies in the access flag word.
    pub fn mask(self) -> (m: u16)
        ensures
            m == class_flag_mask(self),
    {
        match self {
            ClassAccessPropertyFlags::Public => 0x0001,
            ClassAccessPropertyFlags::Final => 0x0010,
            ClassAccessPropertyFlags::Super => 0x0020,
            ClassAccessPropertyFlags::Interface => 0x2000,
            ClassAccessPropertyFlags::Abstract => 0x4000,
        }
    }
}

/// Method access and property flags (JVMS Table 4.6-A).
#[derive(Clone, Copy, Debug, PartialEq, Eq, Structural)]
pub enum MethodAccessPropertyFlags {
    Public,
    Private,
    Protected,
    Static,
    Synchronized,
    Bridge,
    VarArgs,
    Native,
    Abstract,
    Strict,
    Synthetic,
}

/// The bit each method flag occupies in the access flag word.
pub open spec fn method_flag_mask(f: MethodAccessPropertyFlags) -> u16 {
    match f {
        MethodAccessPropertyFlags::Public => 0x0001,
        MethodAccessPropertyFlags::Private => 0x0002,
        MethodAccessPropertyFlags::Protected => 0x0004,
        MethodAccessPropertyFlags::Static => 0x0008,
        MethodAccessPropertyFlags::Synchronized => 0x0020,
        MethodAccessPropertyFlags::Bridge => 0x0040,
        MethodAccessPropertyFlags::VarArgs => 0x0080,
        MethodAccessPropertyFlags::Native => 0x0100,
        MethodAccessPropertyFlags::Abstract => 0x0400,
        MethodAccessPropertyFlags::Strict => 0x8000,
        MethodAccessPropertyFlags::Synthetic => 0x1000,
    }
}

impl MethodAccessPropertyFlags {
    /// The bit this flag occupies in the access flag word.
    pub fn mask(self) -> (m: u16)
        ensures
            m == method_flag_mask(self),
    {
        match self {
            MethodAccessPropertyFlags::Public => 0x0001,
            MethodAccessPropertyFlags::Private => 0x0002,
            MethodAccessPropertyFlags::Protected => 0x0004,
            MethodAccessPropertyFlags::Static => 0x0008,
            MethodAccessPropertyFlags::Synchronized => 0x0020,
            MethodAccessPropertyFlags::Bridge => 0x0040,
            MethodAccessPropertyFlags::VarArgs => 0x0080,
            MethodAccessPropertyFlags::Native => 0x0100,
            MethodAccessPropertyFlags::Abstract => 0x0400,
            MethodAccessPropertyFlags::Strict => 0x8000,
            MethodAccessPropertyFlags::Synthetic => 0x1000,
        }
    }
}

/// Field access and property flags (JVMS Table 4.5-A).
#[derive(Clone, Copy, Debug, PartialEq, Eq, Structural)]
pub enum FieldAccessPropertyFlags {
    Public,
    Private,
    Protected,
    Static,
    Final,
    Synchronized,
    Volatile,
    Transient,
    Synthetic,
    Enum,
}

/// The bit each field flag occupies in the access flag word.
pub open spec fn field_flag_mask(f: FieldAccessPropertyFlags) -> u16 {
    match f {
        FieldAccessPropertyFlags::Public => 0x0001,
        FieldAccessPropertyFlags::Private => 0x0002,
        FieldAccessPropertyFlags::Protected => 0x0004,
        FieldAccessPropertyFlags::Static => 0x0008,
        FieldAccessPropertyFlags::Final => 0x0010,
        FieldAccessPropertyFlags::Synchronized => 0x0020,
        FieldAccessPropertyFlags::Volatile => 0x0040,
        FieldAccessPropertyFlags::Transient => 0x0080,
        FieldAccessPropertyFlags::Synthetic => 0x0100,
        FieldAccessPropertyFlags::Enum => 0x4000,
    }
}

impl FieldAccessPropertyFlags {
    /// The bit this flag occupies in the access flag word.
    pub fn mask(self) -> (m: u16)
        ensures
            m == field_flag_mask(self),
    {
        match self {
            FieldAccessPropertyFlags::Public => 0x0001,
            FieldAccessPropertyFlags::Private => 0x0002,
            FieldAccessPropertyFlags::Protected => 0x0004,
            FieldAccessPropertyFlags::Static => 0x0008,
            FieldAccessPropertyFlags::Final => 0x0010,
            FieldAccessPropertyFlags::Synchronized => 0x0020,
            FieldAccessPropertyFlags::Volatile => 0x0040,
            FieldAccessPropertyFlags::Transient => 0x0080,
            FieldAccessPropertyFlags::Synthetic => 0x0100,
            FieldAccessPropertyFlags::Enum => 0x4000,
        }
    }
}

} // verus!
