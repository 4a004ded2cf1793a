//! Attributes (JVMS 4.7): variable-shape substructures dispatched by
//! the Utf8 name resolved through the constant pool at read time. The
//! Code attribute nests further attributes, so its reader carries the
//! pool as a read-time argument.
use vstd::prelude::*;
use vstd::string::StringExecFns;

use crate::class::constant_pool::{pool_at, ConstantPool, ConstantPoolItem};
use crate::class::modified_utf8::{mutf8_decode, ModifiedUtf8String};
use crate::class::reader::{be16_at, be32_at, ByteReader, ParseError};
use crate::class::verification::VerificationTypeInfo;

verus! {

/// One attribute: its name index and declared length, and the decoded
/// payload.
#[derive(Debug, PartialEq)]
pub struct Attribute {
    pub name_index: u16,
    pub length: u32,
    pub attribute_info: AttributeInfo,
}

/// The recognized attribute payloads; anything else is preserved
/// opaquely as an `UnrecognisedAttribute`.
#[derive(Debug, PartialEq)]
pub enum AttributeInfo {
    BootstrapMethods(BootstrapMethods),
    Code(Code),
    ConstantValue(ConstantValue),
    LineNumberTable(LineNumberTable),
    NestHost(NestHost),
    NestMembers(NestMembers),
    PermittedSubclasses(PermittedSubclasses),
    SourceFile(SourceFile),
    StackMapTable(StackMapTable),
    UnrecognisedAttribute(UnrecognisedAttribute),
}

/// True of the nine attribute names this loader gives a decoded
/// shape (JVMS 4.7); any other name is preserved opaquely.
pub open spec fn is_recognized_attribute_name(name: Seq<char>) -> bool {
    ||| name == "BootstrapMethods"@
    ||| name == "Code"@
    ||| name == "ConstantValue"@
    ||| name == "LineNumberTable"@
    ||| name == "NestHost"@
    ||| name == "NestMembers"@
    ||| name == "PermittedSubclasses"@
    ||| name == "SourceFile"@
    ||| name == "StackMapTable"@
}

/// True when the bytes at `pos` carry an attribute whose name
/// resolves through the pool, decodes, and is not a recognized one,
/// and whose declared payload fits: on such input the reader cannot
/// fail.
pub open spec fn unknown_attribute_ready(
    bytes: Seq<u8>,
    pos: int,
    pool: Seq<Option<ConstantPoolItem>>,
) -> bool {
    &&& pos + 6 <= bytes.len()
    &&& (pool_at(pool, be16_at(bytes, pos)) matches Some(ConstantPoolItem::Utf8(u))
        && (mutf8_decode(u.bytes@) matches Ok(name) && !is_recognized_attribute_name(name)))
    &&& pos + 6 + be32_at(bytes, pos + 2) <= bytes.len()
}

/// True when the payload variant is the one that the resolved
/// attribute name calls for (JVMS 4.7): unknown names are preserved
/// opaquely.
pub open spec fn attribute_matches_name(info: AttributeInfo, name: Seq<char>) -> bool {
    match info {
        AttributeInfo::BootstrapMethods(_) => name == "BootstrapMethods"@,
        AttributeInfo::Code(_) => name == "Code"@,
        AttributeInfo::ConstantValue(_) => name == "ConstantValue"@,
        AttributeInfo::LineNumberTable(_) => name == "LineNumberTable"@,
        AttributeInfo::NestHost(_) => name == "NestHost"@,
        AttributeInfo::NestMembers(_) => name == "NestMembers"@,
        AttributeInfo::PermittedSubclasses(_) => name == "PermittedSubclasses"@,
        AttributeInfo::SourceFile(_) => name == "SourceFile"@,
        AttributeInfo::StackMapTable(_) => name == "StackMapTable"@,
        AttributeInfo::UnrecognisedAttribute(_) => !is_recognized_attribute_name(name),
    }
}

/// An unrecognised attribute, preserved opaquely: its name's
/// modified-UTF-8 bytes as the constant pool holds them, with their
/// declared length; the payload bytes are consumed without being
/// interpreted.
#[derive(Clone, Debug, PartialEq)]
pub struct UnrecognisedAttribute {
    pub length: u16,
    pub attribute_name: Vec<u8>,
}

/// A ConstantValue attribute (JVMS 4.7.2).
#[derive(Clone, Copy, Debug, PartialEq, Eq, Structural)]
pub struct ConstantValue {
    pub constant_value_index: u16,
}

/// A Code attribute (JVMS 4.7.3): the executable bytes of a method
/// with its exception table and nested attributes.
#[derive(Debug, PartialEq)]
pub struct Code {
    pub max_stack: u16,
    pub max_locals: u16,
    pub code_length: u32,
    pub code: Vec<u8>,
    pub handler_count: u16,
    pub handlers: Vec<ExceptionHandler>,
    pub attributes_count: u16,
    pub attributes: Vec<Attribute>,
}

/// An exception_table entry (JVMS 4.7.3).
#[derive(Clone, Copy, Debug, PartialEq, Eq, Structural)]
pub struct ExceptionHandler {
    pub start_pc: u16,
    pub end_pc: u16,
    pub handler_pc: u16,
    pub catch_type_index: u16,
}

/// True when `h` is the eight-byte exception_table entry at `pos`.
pub open spec fn is_handler_at(bytes: Seq<u8>, pos: int, h: ExceptionHandler) -> bool {
    &&& pos + 8 <= bytes.len()
    &&& h.start_pc == be16_at(bytes, pos)
    &&& h.end_pc == be16_at(bytes, pos + 2)
    &&& h.handler_pc == be16_at(bytes, pos + 4)
    &&& h.catch_type_index == be16_at(bytes, pos + 6)
}

/// A LineNumberTable attribute (JVMS 4.7.12).
#[derive(Clone, Debug, PartialEq)]
pub struct LineNumberTable {
    pub table_length: u16,
    pub lines: Vec<Line>,
}

/// One line_number_table entry.
#[derive(Clone, Copy, Debug, PartialEq, Eq, Structural)]
pub struct Line {
    pub start_pc: u16,
    pub line_number: u16,
}

/// True when `l` is the four-byte line table entry at `pos`.
pub open spec fn is_line_at(bytes: Seq<u8>, pos: int, l: Line) -> bool {
    &&& pos + 4 <= bytes.len()
    &&& l.start_pc == be16_at(bytes, pos)
    &&& l.line_number == be16_at(bytes, pos + 2)
}

/// A SourceFile attribute (JVMS 4.7.10).
#[derive(Clone, Copy, Debug, PartialEq, Eq, Structural)]
pub struct SourceFile {
    pub source_file_index: u16,
}

/// A StackMapTable attribute (JVMS 4.7.4).
#[derive(Clone, Debug, PartialEq)]
pub struct StackMapTable {
    pub number_of_entries: u8,
    pub entries: Vec<StackMapFrame>,
}

/// A stack_map_frame, discriminated by its tag byte: same (0 to 63),
/// same_locals_1_stack_item (64 to 127),
/// same_locals_1_stack_item_extended (247), chop (248 to 250),
/// same_frame_extended (251), append (252 to 254 with one to three
/// locals) and full (255).
#[derive(Clone, Debug, PartialEq)]
pub enum StackMapFrame {
    SameFrame(SameFrame),
    SameLocals1StackItemFrame(SameLocals1StackItemFrame),
    SameLocals1StackItemFrameExtended(SameLocals1StackItemFrameExtended),
    ChopFrame(ChopFrame),
    SameFrameExtended(SameFrameExtended),
    AppendFrame(AppendFrame),
    FullFrame(FullFrame),
}

#[derive(Clone, Copy, Debug, PartialEq, Eq, Structural)]
pub struct SameFrame {
    pub frame_type: u8,
}

#[derive(Clone, Copy, Debug, PartialEq, Eq, Structural)]
pub struct SameLocals1StackItemFrame {
    pub frame_type: u8,
    pub verification_type_info: VerificationTypeInfo,
}

#[derive(Clone, Copy, Debug, PartialEq, Eq, Structural)]
pub struct SameLocals1StackItemFrameExtended {
    pub frame_type: u8,
    pub offset_delta: u16,
    pub verification_type_info: VerificationTypeInfo,
}

#[derive(Clone, Copy, Debug, PartialEq, Eq, Structural)]
pub struct ChopFrame {
    pub frame_type: u8,
    pub offset_delta: u16,
}

#[derive(Clone, Copy, Debug, PartialEq, Eq, Structural)]
pub struct SameFrameExtended {
    pub frame_type: u8,
    pub offset_delta: u16,
}

#[derive(Clone, Debug, PartialEq)]
pub struct AppendFrame {
    pub frame_type: u8,
    pub offset_delta: u16,
    pub locals: Vec<VerificationTypeInfo>,
}

#[derive(Clone, Debug, PartialEq)]
pub struct FullFrame {
    pub frame_type: u8,
    pub offset_delta: u16,
    pub number_of_locals: u16,
    pub locals: Vec<VerificationTypeInfo>,
    pub number_of_stack_items: u16,
    pub stack: Vec<VerificationTypeInfo>,
}

impl StackMapFrame {
    /// Reads one stack map frame, dispatching on its tag byte; the
    /// reserved tags 128 to 246 fail.
    pub fn read(r: &mut ByteReader) -> (res: Result<StackMapFrame, ParseError>)
        requires
            old(r).pos <= old(r).bytes@.len(),
        ensures
            final(r).pos <= final(r).bytes@.len(),
            final(r).bytes@ == old(r).bytes@,
            final(r).pos >= old(r).pos,
            res matches Err(e) ==> (e is Truncated || e is BadStackMapFrameTag
                || e is BadVerificationTypeTag),
            res matches Ok(f) ==> {
                &&& old(r).pos < old(r).bytes@.len()
                &&& final(r).pos > old(r).pos
                &&& match f {
                    StackMapFrame::SameFrame(v) => v.frame_type == old(r).bytes@[old(r).pos as int]
                        && v.frame_type <= 63,
                    StackMapFrame::SameLocals1StackItemFrame(v) => v.frame_type == old(
                        r,
                    ).bytes@[old(r).pos as int] && 64 <= v.frame_type <= 127,
                    StackMapFrame::SameLocals1StackItemFrameExtended(v) => v.frame_type == old(
                        r,
                    ).bytes@[old(r).pos as int] && v.frame_type == 247,
                    StackMapFrame::ChopFrame(v) => v.frame_type == old(r).bytes@[old(r).pos as int]
                        && 248 <= v.frame_type <= 250,
                    StackMapFrame::SameFrameExtended(v) => v.frame_type == old(r).bytes@[old(
                        r,
                    ).pos as int] && v.frame_type == 251,
                    StackMapFrame::AppendFrame(v) => v.frame_type == old(r).bytes@[old(
                        r,
                    ).pos as int] && 252 <= v.frame_type <= 254 && v.locals@.len()
                        == v.frame_type - 251,
                    StackMapFrame::FullFrame(v) => v.frame_type == old(r).bytes@[old(
                        r,
                    ).pos as int] && v.frame_type == 255 && v.locals@.len() == v.number_of_locals
                        && v.stack@.len() == v.number_of_stack_items,
                }
            },
    {
        let frame_type = r.read_u8()?;
        if frame_type <= 63 {
            Ok(StackMapFrame::SameFrame(SameFrame { frame_type }))
        } else if frame_type <= 127 {
            let verification_type_info = VerificationTypeInfo::read(r)?;
            Ok(
                StackMapFrame::SameLocals1StackItemFrame(
                    SameLocals1StackItemFrame { frame_type, verification_type_info },
                ),
            )
        } else if frame_type == 247 {
            let offset_delta = r.read_u16()?;
            let verification_type_info = VerificationTypeInfo::read(r)?;
            Ok(
                StackMapFrame::SameLocals1StackItemFrameExtended(
                    SameLocals1StackItemFrameExtended {
                        frame_type,
                        offset_delta,
                        verification_type_info,
                    },
                ),
            )
        } else if 248 <= frame_type && frame_type <= 250 {
            let offset_delta = r.read_u16()?;
            Ok(StackMapFrame::ChopFrame(ChopFrame { frame_type, offset_delta }))
        } else if frame_type == 251 {
            let offset_delta = r.read_u16()?;
            Ok(StackMapFrame::SameFrameExtended(SameFrameExtended { frame_type, offset_delta }))
        } else if 252 <= frame_type && frame_type <= 254 {
            let offset_delta = r.read_u16()?;
            let n: u8 = frame_type - 251;
            let mut locals: Vec<VerificationTypeInfo> = Vec::new();
            let mut i: u8 = 0;
            while i < n
                invariant
                    i <= n,
                    locals@.len() == i as int,
                    r.bytes@ == old(r).bytes@,
                    r.pos > old(r).pos,
                    r.pos <= r.bytes@.len(),
                decreases n - i,
            {
                let info = VerificationTypeInfo::read(r)?;
                locals.push(info);
                i = i + 1;
            }
            Ok(StackMapFrame::AppendFrame(AppendFrame { frame_type, offset_delta, locals }))
        } else if frame_type == 255 {
            let offset_delta = r.read_u16()?;
            let number_of_locals = r.read_u16()?;
            let mut locals: Vec<VerificationTypeInfo> = Vec::new();
            let mut i: u16 = 0;
            while i < number_of_locals
                invariant
                    i <= number_of_locals,
                    locals@.len() == i as int,
                    r.bytes@ == old(r).bytes@,
                    r.pos > old(r).pos,
                    r.pos <= r.bytes@.len(),
                decreases number_of_locals - i,
            {
                let info = VerificationTypeInfo::read(r)?;
                locals.push(info);
                i = i + 1;
            }
            let number_of_stack_items = r.read_u16()?;
            let mut stack: Vec<VerificationTypeInfo> = Vec::new();
            let mut j: u16 = 0;
            while j < number_of_stack_items
                invariant
                    j <= number_of_stack_items,
                    stack@.len() == j as int,
                    r.bytes@ == old(r).bytes@,
                    r.pos > old(r).pos,
                    r.pos <= r.bytes@.len(),
                decreases number_of_stack_items - j,
            {
                let info = VerificationTypeInfo::read(r)?;
                stack.push(info);
                j = j + 1;
            }
            Ok(
                StackMapFrame::FullFrame(
                    FullFrame {
                        frame_type,
                        offset_delta,
                        number_of_locals,
                        locals,
                        number_of_stack_items,
                        stack,
                    },
                ),
            )
        } else {
            Err(ParseError::BadStackMapFrameTag(frame_type))
        }
    }
}

/// A BootstrapMethods attribute (JVMS 4.7.23).
#[derive(Clone, Debug, PartialEq)]
pub struct BootstrapMethods {
    pub num_bootstrap_methods: u16,
    pub bootstrap_methods: Vec<BootstrapMethodEntry>,
}

/// One bootstrap_methods entry (JVMS 4.7.23).
#[derive(Clone, Debug, PartialEq)]
pub struct BootstrapMethodEntry {
    pub bootstrap_method_ref: u16,
    pub num_bootstrap_arguments: u16,
    pub bootstrap_arguments: Vec<u16>,
}

/// A NestHost attribute (JVMS 4.7.28).
#[derive(Clone, Copy, Debug, PartialEq, Eq, Structural)]
pub struct NestHost {
    pub host_class_index: u16,
}

/// A NestMembers attribute (JVMS 4.7.29).
#[derive(Clone, Debug, PartialEq)]
pub struct NestMembers {
    pub number_of_classes: u16,
    pub classes: Vec<u16>,
}

/// A PermittedSubclasses attribute (JVMS 4.7.31).
#[derive(Clone, Debug, PartialEq)]
pub struct PermittedSubclasses {
    pub number_of_classes: u16,
    pub classes: Vec<u16>,
}

/// Reads a counted list of big-endian u16 values.
fn read_u16_list(r: &mut ByteReader, n: u16) -> (res: Result<Vec<u16>, ParseError>)
    requires
        old(r).pos <= old(r).bytes@.len(),
    ensures
        old(r).pos + 2 * (n as int) <= old(r).bytes@.len() ==> res is Ok,
        final(r).pos <= final(r).bytes@.len(),
        final(r).bytes@ == old(r).bytes@,
        final(r).pos >= old(r).pos,
        res matches Err(e) ==> e is Truncated,
        res matches Ok(v) ==> {
            &&& v@.len() == n as int
            &&& final(r).pos == old(r).pos + 2 * (n as int)
            &&& forall|i: int|
                0 <= i < n as int ==> v@[i] == be16_at(old(r).bytes@, old(r).pos + 2 * i)
        },
{
    let mut v: Vec<u16> = Vec::new();
    let mut i: u16 = 0;
    while i < n
        invariant
            i <= n,
            v@.len() == i as int,
            r.bytes@ == old(r).bytes@,
            r.pos <= r.bytes@.len(),
            r.pos == old(r).pos + 2 * (i as int),
            forall|k: int| 0 <= k < i as int ==> v@[k] == be16_at(old(r).bytes@, old(r).pos + 2 * k),
        decreases n - i,
    {
        let x = r.read_u16()?;
        v.push(x);
        i = i + 1;
    }
    Ok(v)
}

impl LineNumberTable {
    /// Reads a LineNumberTable payload: a counted list of four-byte
    /// entries.
    pub fn read(r: &mut ByteReader) -> (res: Result<LineNumberTable, ParseError>)
        requires
            old(r).pos <= old(r).bytes@.len(),
        ensures
            old(r).pos + 2 <= old(r).bytes@.len() && old(r).pos + 2 + 4 * (be16_at(
                old(r).bytes@,
                old(r).pos as int,
            ) as int) <= old(r).bytes@.len() ==> res is Ok,
            final(r).pos <= final(r).bytes@.len(),
            final(r).bytes@ == old(r).bytes@,
            final(r).pos >= old(r).pos,
            res matches Err(e) ==> e is Truncated,
            res matches Ok(t) ==> {
                &&& t.table_length == be16_at(old(r).bytes@, old(r).pos as int)
                &&& t.lines@.len() == t.table_length as int
                &&& final(r).pos == old(r).pos + 2 + 4 * (t.table_length as int)
                &&& forall|i: int|
                    0 <= i < t.lines@.len() ==> is_line_at(
                        old(r).bytes@,
                        old(r).pos + 2 + 4 * i,
                        t.lines@[i],
                    )
            },
    {
        let table_length = r.read_u16()?;
        let ghost base = r.pos as int;
        let mut lines: Vec<Line> = Vec::new();
        let mut i: u16 = 0;
        while i < table_length
            invariant
                i <= table_length,
                lines@.len() == i as int,
                r.bytes@ == old(r).bytes@,
                r.pos <= r.bytes@.len(),
                base == old(r).pos + 2,
                table_length == be16_at(old(r).bytes@, old(r).pos as int),
                r.pos == base + 4 * (i as int),
                forall|k: int|
                    0 <= k < i as int ==> is_line_at(old(r).bytes@, base + 4 * k, lines@[k]),
            decreases table_length - i,
        {
            let start_pc = r.read_u16()?;
            let line_number = r.read_u16()?;
            lines.push(Line { start_pc, line_number });
            i = i + 1;
        }
        Ok(LineNumberTable { table_length, lines })
    }
}

impl Attribute {
    /// Reads one attribute: name index and length, then the payload
    /// whose shape the name, resolved through the constant pool and
    /// decoded from modified UTF-8, decides (JVMS 4.7). Every
    /// attribute's payload must span exactly its declared `length`
    /// bytes, so the reader always ends six plus `length` bytes on.
    /// Unknown names consume those bytes opaquely and never fail.
    pub fn read(r: &mut ByteReader, pool: &ConstantPool) -> (res: Result<Attribute, ParseError>)
        requires
            old(r).pos <= old(r).bytes@.len(),
        ensures
            res matches Err(e) ==> !(e is BadMagic),
            final(r).pos <= final(r).bytes@.len(),
            final(r).bytes@ == old(r).bytes@,
            final(r).pos >= old(r).pos,
            res matches Ok(a) ==> {
                &&& old(r).pos + 6 <= old(r).bytes@.len()
                &&& a.name_index == be16_at(old(r).bytes@, old(r).pos as int)
                &&& a.length == be32_at(old(r).bytes@, old(r).pos + 2)
                &&& final(r).pos == old(r).pos + 6 + a.length
                &&& (pool_at(pool.constants@, a.name_index) matches Some(
                    ConstantPoolItem::Utf8(u),
                ) && (mutf8_decode(u.bytes@) matches Ok(name)
                    && attribute_matches_name(a.attribute_info, name)
                    && (a.attribute_info matches AttributeInfo::UnrecognisedAttribute(ua)
                        ==> ua.attribute_name@ == u.bytes@ && ua.length == u.length)))
            },
            unknown_attribute_ready(old(r).bytes@, old(r).pos as int, pool.constants@)
                ==> res is Ok,
        decreases old(r).bytes@.len() - old(r).pos,
    {
        let ghost pos0 = r.pos as int;
        let name_index = r.read_u16()?;
        let length = r.read_u32()?;
        let type_constant = match pool.get_utf8(name_index) {
            Ok(u) => u,
            Err(e) => {
                return Err(ParseError::Pool(e));
            },
        };
        let name_constant = type_constant.clone();
        let attribute_type = match ModifiedUtf8String::new(type_constant.bytes).parse() {
            Ok(s) => s,
            Err(e) => {
                return Err(ParseError::BadName(e));
            },
        };
        let payload_start = r.pos;
        let attribute_info: AttributeInfo = if attribute_type == String::from_str(
            "BootstrapMethods",
        ) {
            let num_bootstrap_methods = r.read_u16()?;
            let mut bootstrap_methods: Vec<BootstrapMethodEntry> = Vec::new();
            let mut i: u16 = 0;
            while i < num_bootstrap_methods
                invariant
                    i <= num_bootstrap_methods,
                    bootstrap_methods@.len() == i as int,
                    r.bytes@ == old(r).bytes@,
                    pos0 == old(r).pos,
                    r.pos >= pos0 + 6,
                    r.pos <= r.bytes@.len(),
                    !unknown_attribute_ready(old(r).bytes@, old(r).pos as int, pool.constants@),
                decreases num_bootstrap_methods - i,
            {
                let bootstrap_method_ref = r.read_u16()?;
                let num_bootstrap_arguments = r.read_u16()?;
                let bootstrap_arguments = read_u16_list(r, num_bootstrap_arguments)?;
                bootstrap_methods.push(
                    BootstrapMethodEntry {
                        bootstrap_method_ref,
                        num_bootstrap_arguments,
                        bootstrap_arguments,
                    },
                );
                i = i + 1;
            }
            AttributeInfo::BootstrapMethods(
                BootstrapMethods { num_bootstrap_methods, bootstrap_methods },
            )
        } else if attribute_type == String::from_str("Code") {
            AttributeInfo::Code(Code::read(r, pool)?)
        } else if attribute_type == String::from_str("ConstantValue") {
            let constant_value_index = r.read_u16()?;
            AttributeInfo::ConstantValue(ConstantValue { constant_value_index })
        } else if attribute_type == String::from_str("LineNumberTable") {
            AttributeInfo::LineNumberTable(LineNumberTable::read(r)?)
        } else if attribute_type == String::from_str("NestHost") {
            let host_class_index = r.read_u16()?;
            AttributeInfo::NestHost(NestHost { host_class_index })
        } else if attribute_type == String::from_str("NestMembers") {
            let number_of_classes = r.read_u16()?;
            let classes = read_u16_list(r, number_of_classes)?;
            AttributeInfo::NestMembers(NestMembers { number_of_classes, classes })
        } else if attribute_type == String::from_str("PermittedSubclasses") {
            let number_of_classes = r.read_u16()?;
            let classes = read_u16_list(r, number_of_classes)?;
            AttributeInfo::PermittedSubclasses(PermittedSubclasses { number_of_classes, classes })
        } else if attribute_type == String::from_str("SourceFile") {
            let source_file_index = r.read_u16()?;
            AttributeInfo::SourceFile(SourceFile { source_file_index })
        } else if attribute_type == String::from_str("StackMapTable") {
            let number_of_entries = r.read_u8()?;
            let mut entries: Vec<StackMapFrame> = Vec::new();
            let mut i: u8 = 0;
            while i < number_of_entries
                invariant
                    i <= number_of_entries,
                    entries@.len() == i as int,
                    r.bytes@ == old(r).bytes@,
                    pos0 == old(r).pos,
                    r.pos >= pos0 + 6,
                    r.pos <= r.bytes@.len(),
                    !unknown_attribute_ready(old(r).bytes@, old(r).pos as int, pool.constants@),
                decreases number_of_entries - i,
            {
                let frame = StackMapFrame::read(r)?;
                entries.push(frame);
                i = i + 1;
            }
            AttributeInfo::StackMapTable(StackMapTable { number_of_entries, entries })
        } else {
            r.skip(length as usize)?;
            AttributeInfo::UnrecognisedAttribute(
                UnrecognisedAttribute {
                    length: name_constant.length,
                    attribute_name: name_constant.bytes,
                },
            )
        };
        if r.pos - payload_start != length as usize {
            return Err(ParseError::DeclaredLengthOverflow);
        }
        Ok(Attribute { name_index, length, attribute_info })
    }
}

impl Code {
    /// Reads a Code payload (JVMS 4.7.3): sizes, the code bytes, the
    /// exception table, and the nested attributes, which need the
    /// same constant pool for their name dispatch.
    pub fn read(r: &mut ByteReader, pool: &ConstantPool) -> (res: Result<Code, ParseError>)
        requires
            old(r).pos <= old(r).bytes@.len(),
        ensures
            res matches Err(e) ==> !(e is BadMagic),
            final(r).pos <= final(r).bytes@.len(),
            final(r).bytes@ == old(r).bytes@,
            final(r).pos >= old(r).pos,
            res matches Ok(c) ==> {
                &&& c.max_stack == be16_at(old(r).bytes@, old(r).pos as int)
                &&& c.max_locals == be16_at(old(r).bytes@, old(r).pos + 2)
                &&& c.code_length == be32_at(old(r).bytes@, old(r).pos + 4)
                &&& c.code@ == old(r).bytes@.subrange(
                    old(r).pos + 8,
                    old(r).pos + 8 + c.code_length,
                )
                &&& c.handler_count == be16_at(old(r).bytes@, old(r).pos + 8 + c.code_length)
                &&& c.handlers@.len() == c.handler_count as int
                &&& forall|i: int|
                    0 <= i < c.handlers@.len() ==> is_handler_at(
                        old(r).bytes@,
                        old(r).pos + 10 + c.code_length + 8 * i,
                        c.handlers@[i],
                    )
                &&& c.attributes@.len() == c.attributes_count as int
                &&& final(r).pos > old(r).pos + 9 + c.code_length
            },
        decreases old(r).bytes@.len() - old(r).pos,
    {
        let max_stack = r.read_u16()?;
        let max_locals = r.read_u16()?;
        let code_length = r.read_u32()?;
        let code = r.read_bytes(code_length as usize)?;
        let handler_count = r.read_u16()?;
        let ghost hbase = r.pos as int;
        let mut handlers: Vec<ExceptionHandler> = Vec::new();
        let mut i: u16 = 0;
        while i < handler_count
            invariant
                i <= handler_count,
                handlers@.len() == i as int,
                r.bytes@ == old(r).bytes@,
                r.pos <= r.bytes@.len(),
                hbase == old(r).pos + 10 + code_length,
                r.pos == hbase + 8 * (i as int),
                forall|k: int|
                    0 <= k < i as int ==> is_handler_at(old(r).bytes@, hbase + 8 * k, handlers@[k]),
            decreases handler_count - i,
        {
            let start_pc = r.read_u16()?;
            let end_pc = r.read_u16()?;
            let handler_pc = r.read_u16()?;
            let catch_type_index = r.read_u16()?;
            handlers.push(ExceptionHandler { start_pc, end_pc, handler_pc, catch_type_index });
            i = i + 1;
        }
        let attributes_count = r.read_u16()?;
        let mut attributes: Vec<Attribute> = Vec::new();
        let mut j: u16 = 0;
        while j < attributes_count
            invariant
                j <= attributes_count,
                attributes@.len() == j as int,
                r.bytes@ == old(r).bytes@,
                r.pos > old(r).pos + 9 + code_length,
                r.pos <= r.bytes@.len(),
            decreases attributes_count - j,
        {
            let attribute = Attribute::read(r, pool)?;
            attributes.push(attribute);
            j = j + 1;
        }
        Ok(
            Code {
                max_stack,
                max_locals,
                code_length,
                code,
                handler_count,
                handlers,
                attributes_count,
                attributes,
            },
        )
    }
}

} // verus!
