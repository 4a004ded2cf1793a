//! Typed values held in local variables and yielded by return
//! instructions, and the return-type descriptor tags.
//!
//! Floating-point values are carried as their IEEE-754 bit patterns
//! (`u32` for floats, `u64` for doubles); the interpreter never needs to
//! evaluate them numerically except through the caller-supplied
//! floating-point requests.
use vstd::prelude::*;
use vstd::string::StringExecFns;

verus! {

/// A method return-type descriptor tag (JVMS 4.3.2).
#[derive(Debug, PartialEq)]
pub enum Type {
    /// boolean
    Z,
    /// byte
    B,
    /// char
    C,
    /// double
    D,
    /// float
    F,
    /// int
    I,
    /// object, carrying the class name
    L(String),
    /// long
    J,
    /// short
    S,
    /// array dimension
    A,
    /// void
    V,
}

/// Structural equality of type tags; object tags compare their class
/// names by contents.
pub open spec fn type_eq(a: Type, b: Type) -> bool {
    match (a, b) {
        (Type::Z, Type::Z) => true,
        (Type::B, Type::B) => true,
        (Type::C, Type::C) => true,
        (Type::D, Type::D) => true,
        (Type::F, Type::F) => true,
        (Type::I, Type::I) => true,
        (Type::L(x), Type::L(y)) => x@ == y@,
        (Type::J, Type::J) => true,
        (Type::S, Type::S) => true,
        (Type::A, Type::A) => true,
        (Type::V, Type::V) => true,
        _ => false,
    }
}

impl Clone for Type {
    fn clone(&self) -> (r: Self)
        ensures
            type_eq(r, *self),
    {
        match self {
            Type::Z => Type::Z,
            Type::B => Type::B,
            Type::C => Type::C,
            Type::D => Type::D,
            Type::F => Type::F,
            Type::I => Type::I,
            Type::L(name) => Type::L(name.clone()),
            Type::J => Type::J,
            Type::S => Type::S,
            Type::A => Type::A,
            Type::V => Type::V,
        }
    }
}

impl Default for Type {
    /// The default return type is void.
    fn default() -> (r: Self)
        ensures
            r == Type::V,
    {
        Type::V
    }
}

/// A typed value (JVMS 2.3): a tagged union over the primitive and
/// reference categories.
#[derive(Clone, Debug, PartialEq)]
pub enum Variable {
    Boolean(Boolean),
    Byte(Byte),
    Char(Char),
    Double(Double),
    Float(Float),
    Int(Int),
    Long(Long),
    Short(Short),
    ClassReference(ClassReference),
    ArrayReference(ArrayReference),
    ReturnAddress(ReturnAddress),
    Null(Null),
}

impl Default for Variable {
    fn default() -> (r: Self)
        ensures
            r == Variable::Null(Null {}),
    {
        Variable::Null(Null {})
    }
}

/// True of the values that occupy two local slots (JVMS 2.6.1): longs
/// and doubles, the category-2 values.
pub open spec fn is_category_2(v: Variable) -> bool {
    v is Long || v is Double
}

#[derive(Clone, Copy, Debug, PartialEq, Eq, Structural)]
pub struct Boolean {
    pub value: bool,
}

#[derive(Clone, Copy, Debug, PartialEq, Eq, Structural)]
pub struct Byte {
    pub value: i8,
}

#[derive(Clone, Copy, Debug, PartialEq, Eq, Structural)]
pub struct Char {
    pub value: i32,
}

/// A 32-bit IEEE-754 value, carried as its bit pattern.
#[derive(Clone, Copy, Debug, PartialEq, Eq, Structural)]
pub struct Float {
    pub bits: u32,
}

/// A 64-bit IEEE-754 value, carried as its bit pattern.
#[derive(Clone, Copy, Debug, PartialEq, Eq, Structural)]
pub struct Double {
    pub bits: u64,
}

#[derive(Clone, Copy, Debug, PartialEq, Eq, Structural)]
pub struct Int {
    pub value: i32,
}

#[derive(Clone, Copy, Debug, PartialEq, Eq, Structural)]
pub struct Long {
    pub value: i64,
}

#[derive(Clone, Copy, Debug, PartialEq, Eq, Structural)]
pub struct Short {
    pub value: i16,
}

#[derive(Debug, PartialEq)]
pub struct ClassReference {
    pub value: String,
}

impl Clone for ClassReference {
    fn clone(&self) -> (r: Self)
        ensures
            r.value@ == self.value@,
    {
        ClassReference { value: self.value.clone() }
    }
}

#[derive(Debug, PartialEq)]
pub struct ArrayReference {
    pub dimensions: u32,
    pub class_name: String,
}

impl Clone for ArrayReference {
    fn clone(&self) -> (r: Self)
        ensures
            r.dimensions == self.dimensions,
            r.class_name@ == self.class_name@,
    {
        ArrayReference { dimensions: self.dimensions, class_name: self.class_name.clone() }
    }
}

/// The name of a typed value's kind, as reported in type errors.
pub open spec fn variable_kind_name(v: Variable) -> Seq<char> {
    match v {
        Variable::Boolean(_) => "Boolean"@,
        Variable::Byte(_) => "Byte"@,
        Variable::Char(_) => "Char"@,
        Variable::Double(_) => "Double"@,
        Variable::Float(_) => "Float"@,
        Variable::Int(_) => "Int"@,
        Variable::Long(_) => "Long"@,
        Variable::Short(_) => "Short"@,
        Variable::ClassReference(_) => "ClassReference"@,
        Variable::ArrayReference(_) => "ArrayReference"@,
        Variable::ReturnAddress(_) => "ReturnAddress"@,
        Variable::Null(_) => "Null"@,
    }
}

/// The name of a typed value's kind, for a type error's message
/// fields.
pub fn variable_name(v: &Variable) -> (s: String)
    ensures
        s@ == variable_kind_name(*v),
{
    match v {
        Variable::Boolean(_) => String::from_str("Boolean"),
        Variable::Byte(_) => String::from_str("Byte"),
        Variable::Char(_) => String::from_str("Char"),
        Variable::Double(_) => String::from_str("Double"),
        Variable::Float(_) => String::from_str("Float"),
        Variable::Int(_) => String::from_str("Int"),
        Variable::Long(_) => String::from_str("Long"),
        Variable::Short(_) => String::from_str("Short"),
        Variable::ClassReference(_) => String::from_str("ClassReference"),
        Variable::ArrayReference(_) => String::from_str("ArrayReference"),
        Variable::ReturnAddress(_) => String::from_str("ReturnAddress"),
        Variable::Null(_) => String::from_str("Null"),
    }
}

#[derive(Clone, Copy, Debug, PartialEq, Eq, Structural)]
pub struct ReturnAddress {
    pub value: u32,
}

#[derive(Clone, Copy, Debug, PartialEq, Eq, Structural)]
pub struct Null {}

} // verus!
