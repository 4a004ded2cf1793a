//! The class file decoder (JVMS 4.1): header, constant pool, access
//! flags, this and super class, fields, methods and class attributes,
//! in that order, all big-endian.
use vstd::prelude::*;

use crate::class::access::ClassAccessPropertyFlags;
use crate::class::attribute::Attribute;
use crate::class::constant_pool::{
    self, are_cp_items_at, canonical_pool, cp_items_size, cp_run_exists,
    lemma_canonical_pool_functional, pool_at, pool_slot_similar, ConstantPool, ConstantPoolItem,
    RawConstantPool,
};
use crate::class::field::Field;
use crate::class::method::Method;
use crate::class::reader::{be16_at, be32_at, ByteReader, ParseError};

verus! {

/// A high-level container for class data: the class file abstracted
/// into its documented fields.
#[derive(Debug)]
pub struct Class {
    pub major_version: u16,
    pub minor_version: u16,
    /// The canonical constant pool, shared by all frames derived from
    /// this class.
    pub constant_pool: ConstantPool,
    pub flags: Vec<ClassAccessPropertyFlags>,
    pub this_class: constant_pool::Class,
    pub super_class: constant_pool::Class,
    pub fields: Fields,
    pub methods: Methods,
    pub attributes: ClassAttributes,
}

/// The class file header: the magic number and the format version.
#[derive(Clone, Copy, Debug, PartialEq, Eq, Structural)]
pub struct Header {
    /// The magic number 0xCAFEBABE.
    pub magic: u32,
    /// The format minor version.
    pub minor_version: u16,
    /// The format major version.
    pub major_version: u16,
}

impl Header {
    /// Reads the header and rejects any magic number other than
    /// 0xCAFEBABE.
    pub fn read(r: &mut ByteReader) -> (res: Result<Header, ParseError>)
        ensures
            final(r).bytes@ == old(r).bytes@,
            final(r).pos >= old(r).pos,
            match res {
                Ok(h) => {
                    &&& old(r).pos + 8 <= old(r).bytes@.len()
                    &&& h.magic == 0xCAFEBABEu32
                    &&& be32_at(old(r).bytes@, old(r).pos as int) == 0xCAFEBABEu32
                    &&& h.minor_version == be16_at(old(r).bytes@, old(r).pos + 4)
                    &&& h.major_version == be16_at(old(r).bytes@, old(r).pos + 6)
                    &&& final(r).pos == old(r).pos + 8
                },
                Err(ParseError::BadMagic(m)) => {
                    &&& old(r).pos + 4 <= old(r).bytes@.len()
                    &&& m == be32_at(old(r).bytes@, old(r).pos as int)
                    &&& m != 0xCAFEBABEu32
                },
                Err(ParseError::Truncated) => {
                    &&& old(r).pos + 8 > old(r).bytes@.len()
                    &&& (old(r).pos + 4 <= old(r).bytes@.len() ==> be32_at(
                        old(r).bytes@,
                        old(r).pos as int,
                    ) == 0xCAFEBABEu32)
                },
                Err(_) => false,
            },
    {
        let magic = r.read_u32()?;
        if magic != 0xCAFEBABE {
            return Err(ParseError::BadMagic(magic));
        }
        let minor_version = r.read_u16()?;
        let major_version = r.read_u16()?;
        Ok(Header { magic, minor_version, major_version })
    }
}

/// The fields between the constant pool and the field table: access
/// flags, this and super class indices, and the superinterfaces.
#[derive(Clone, Debug, PartialEq)]
pub struct Parameters {
    pub access_flags: u16,
    /// The constant pool index giving this class's name.
    pub this_class: u16,
    /// The constant pool index giving this class's superclass's name.
    pub super_class: u16,
    /// The number of interface entries.
    pub interfaces_count: u16,
    /// Constant pool indices giving the superinterfaces of this class
    /// or interface.
    pub interfaces: Vec<u16>,
}

impl Parameters {
    /// Reads the access flags, class indices and superinterfaces.
    pub fn read(r: &mut ByteReader) -> (res: Result<Parameters, ParseError>)
        requires
            old(r).pos <= old(r).bytes@.len(),
        ensures
            res matches Err(e) ==> !(e is BadMagic),
            final(r).bytes@ == old(r).bytes@,
            final(r).pos >= old(r).pos,
            final(r).pos <= final(r).bytes@.len(),
            old(r).pos + 8 <= old(r).bytes@.len() && old(r).pos + 8 + 2 * (be16_at(
                old(r).bytes@,
                old(r).pos + 6,
            ) as int) <= old(r).bytes@.len() ==> res is Ok,
            res matches Ok(p) ==> {
                &&& p.access_flags == be16_at(old(r).bytes@, old(r).pos as int)
                &&& p.this_class == be16_at(old(r).bytes@, old(r).pos + 2)
                &&& p.super_class == be16_at(old(r).bytes@, old(r).pos + 4)
                &&& p.interfaces_count == be16_at(old(r).bytes@, old(r).pos + 6)
                &&& p.interfaces@.len() == p.interfaces_count as int
                &&& forall|i: int|
                    0 <= i < p.interfaces@.len() ==> p.interfaces@[i] == be16_at(
                        old(r).bytes@,
                        old(r).pos + 8 + 2 * i,
                    )
                &&& final(r).pos == old(r).pos + 8 + 2 * (p.interfaces_count as int)
            },
    {
        let access_flags = r.read_u16()?;
        let this_class = r.read_u16()?;
        let super_class = r.read_u16()?;
        let interfaces_count = r.read_u16()?;
        let ghost base = r.pos as int;
        let mut interfaces: Vec<u16> = Vec::new();
        let mut i: u16 = 0;
        while i < interfaces_count
            invariant
                i <= interfaces_count,
                interfaces@.len() == i as int,
                r.bytes@ == old(r).bytes@,
                base == old(r).pos + 8,
                interfaces_count == be16_at(old(r).bytes@, old(r).pos + 6),
                r.pos == base + 2 * (i as int),
                r.pos <= r.bytes@.len(),
                forall|k: int|
                    0 <= k < i as int ==> interfaces@[k] == be16_at(old(r).bytes@, base + 2 * k),
            decreases interfaces_count - i,
        {
            let x = r.read_u16()?;
            interfaces.push(x);
            i = i + 1;
        }
        Ok(Parameters { access_flags, this_class, super_class, interfaces_count, interfaces })
    }
}

/// The field table: its declared count and the field_info records.
#[derive(Debug)]
pub struct Fields {
    pub fields_count: u16,
    pub fields: Vec<Field>,
}

impl Fields {
    /// Reads the field count and that many field_info records.
    pub fn read(r: &mut ByteReader, pool: &ConstantPool) -> (res: Result<Fields, ParseError>)
        requires
            old(r).pos <= old(r).bytes@.len(),
        ensures
            (old(r).pos + 2 <= old(r).bytes@.len() && be16_at(old(r).bytes@, old(r).pos as int)
                == 0) ==> (res is Ok && final(r).pos == old(r).pos + 2),
            res matches Err(e) ==> !(e is BadMagic),
            final(r).bytes@ == old(r).bytes@,
            final(r).pos >= old(r).pos,
            final(r).pos <= final(r).bytes@.len(),
            res matches Ok(f) ==> {
                &&& f.fields_count == be16_at(old(r).bytes@, old(r).pos as int)
                &&& f.fields@.len() == f.fields_count as int
            },
    {
        let fields_count = r.read_u16()?;
        let mut fields: Vec<Field> = Vec::new();
        let mut i: u16 = 0;
        while i < fields_count
            invariant
                i <= fields_count,
                fields_count == be16_at(old(r).bytes@, old(r).pos as int),
                (fields_count == 0 ==> r.pos == old(r).pos + 2),
                fields@.len() == i as int,
                r.bytes@ == old(r).bytes@,
                r.pos >= old(r).pos,
                r.pos <= r.bytes@.len(),
            decreases fields_count - i,
        {
            let field = Field::read(r, pool)?;
            fields.push(field);
            i = i + 1;
        }
        Ok(Fields { fields_count, fields })
    }
}

/// The method table: its declared count and the method_info records.
#[derive(Debug)]
pub struct Methods {
    pub method_count: u16,
    pub methods: Vec<Method>,
}

impl Methods {
    /// Reads the method count and that many method_info records.
    pub fn read(r: &mut ByteReader, pool: &ConstantPool) -> (res: Result<Methods, ParseError>)
        requires
            old(r).pos <= old(r).bytes@.len(),
        ensures
            (old(r).pos + 2 <= old(r).bytes@.len() && be16_at(old(r).bytes@, old(r).pos as int)
                == 0) ==> (res is Ok && final(r).pos == old(r).pos + 2),
            res matches Err(e) ==> !(e is BadMagic),
            final(r).bytes@ == old(r).bytes@,
            final(r).pos >= old(r).pos,
            final(r).pos <= final(r).bytes@.len(),
            res matches Ok(m) ==> {
                &&& m.method_count == be16_at(old(r).bytes@, old(r).pos as int)
                &&& m.methods@.len() == m.method_count as int
            },
    {
        let method_count = r.read_u16()?;
        let mut methods: Vec<Method> = Vec::new();
        let mut i: u16 = 0;
        while i < method_count
            invariant
                i <= method_count,
                method_count == be16_at(old(r).bytes@, old(r).pos as int),
                (method_count == 0 ==> r.pos == old(r).pos + 2),
                methods@.len() == i as int,
                r.bytes@ == old(r).bytes@,
                r.pos >= old(r).pos,
                r.pos <= r.bytes@.len(),
            decreases method_count - i,
        {
            let method = Method::read(r, pool)?;
            methods.push(method);
            i = i + 1;
        }
        Ok(Methods { method_count, methods })
    }
}

/// The class-level attribute table: its declared count and the
/// attributes.
#[derive(Debug)]
pub struct ClassAttributes {
    pub attribute_count: u16,
    pub attributes: Vec<Attribute>,
}

impl ClassAttributes {
    /// Reads the class attribute count and that many attributes.
    pub fn read(r: &mut ByteReader, pool: &ConstantPool) -> (res: Result<
        ClassAttributes,
        ParseError,
    >)
        requires
            old(r).pos <= old(r).bytes@.len(),
        ensures
            (old(r).pos + 2 <= old(r).bytes@.len() && be16_at(old(r).bytes@, old(r).pos as int)
                == 0) ==> (res is Ok && final(r).pos == old(r).pos + 2),
            res matches Err(e) ==> !(e is BadMagic),
            final(r).bytes@ == old(r).bytes@,
            final(r).pos >= old(r).pos,
            final(r).pos <= final(r).bytes@.len(),
            res matches Ok(a) ==> {
                &&& a.attribute_count == be16_at(old(r).bytes@, old(r).pos as int)
                &&& a.attributes@.len() == a.attribute_count as int
            },
    {
        let attribute_count = r.read_u16()?;
        let mut attributes: Vec<Attribute> = Vec::new();
        let mut i: u16 = 0;
        while i < attribute_count
            invariant
                i <= attribute_count,
                attribute_count == be16_at(old(r).bytes@, old(r).pos as int),
                (attribute_count == 0 ==> r.pos == old(r).pos + 2),
                attributes@.len() == i as int,
                r.bytes@ == old(r).bytes@,
                r.pos >= old(r).pos,
                r.pos <= r.bytes@.len(),
            decreases attribute_count - i,
        {
            let attribute = Attribute::read(r, pool)?;
            attributes.push(attribute);
            i = i + 1;
        }
        Ok(ClassAttributes { attribute_count, attributes })
    }
}

/// The access flag values set in a class access flag word, in the
/// order of JVMS Table 4.1-B.
pub open spec fn class_flags_of(word: u16) -> Seq<ClassAccessPropertyFlags> {
    (if word & 0x0001 == 0x0001 {
        seq![ClassAccessPropertyFlags::Public]
    } else {
        Seq::empty()
    }) + (if word & 0x0010 == 0x0010 {
        seq![ClassAccessPropertyFlags::Final]
    } else {
        Seq::empty()
    }) + (if word & 0x0020 == 0x0020 {
        seq![ClassAccessPropertyFlags::Super]
    } else {
        Seq::empty()
    }) + (if word & 0x2000 == 0x2000 {
        seq![ClassAccessPropertyFlags::Interface]
    } else {
        Seq::empty()
    }) + (if word & 0x4000 == 0x4000 {
        seq![ClassAccessPropertyFlags::Abstract]
    } else {
        Seq::empty()
    })
}

/// True when `items` are the entry records of the class image
/// `bytes` and the rest of the image is a well-formed class with no
/// fields, no methods and no class attributes: the access flags and
/// interface list fit, the this and super indices resolve to Class
/// entries, and the three table counts are zero.
pub open spec fn minimal_class_witness(bytes: Seq<u8>, items: Seq<ConstantPoolItem>) -> bool {
    &&& are_cp_items_at(bytes, 10, 1, be16_at(bytes, 8) as int, items)
    &&& {
        let p = 10 + cp_items_size(items);
        let q = p + 8 + 2 * (be16_at(bytes, p + 6) as int);
        &&& q + 6 <= bytes.len()
        &&& (pool_at(canonical_pool(items), be16_at(bytes, p + 2)) matches Some(
            ConstantPoolItem::Class(_)))
        &&& (pool_at(canonical_pool(items), be16_at(bytes, p + 4)) matches Some(
            ConstantPoolItem::Class(_)))
        &&& be16_at(bytes, q) == 0
        &&& be16_at(bytes, q + 2) == 0
        &&& be16_at(bytes, q + 4) == 0
    }
}

/// True when the bytes hold a well-formed class image whose field,
/// method and class-attribute tables are empty: the magic number, a
/// complete constant pool, fitting flags and interfaces, resolvable
/// this and super classes, and three zero counts. On such an image
/// the decoder cannot fail.
pub open spec fn minimal_class_ready(bytes: Seq<u8>) -> bool {
    &&& bytes.len() >= 10
    &&& be32_at(bytes, 0) == 0xCAFEBABEu32
    &&& exists|items: Seq<ConstantPoolItem>| #[trigger] minimal_class_witness(bytes, items)
}

impl Class {
    /// The abstract flag values whose declared bit is set in the flag
    /// word; unrecognized bits are preserved in the word but do not
    /// fail parsing.
    pub fn get_access_flags(flag_word: u16) -> (flags: Vec<ClassAccessPropertyFlags>)
        ensures
            flags@ == class_flags_of(flag_word),
    {
        let mut flag_values: Vec<ClassAccessPropertyFlags> = Vec::new();
        if flag_word & 0x0001 == 0x0001 {
            flag_values.push(ClassAccessPropertyFlags::Public);
        }
        if flag_word & 0x0010 == 0x0010 {
            flag_values.push(ClassAccessPropertyFlags::Final);
        }
        if flag_word & 0x0020 == 0x0020 {
            flag_values.push(ClassAccessPropertyFlags::Super);
        }
        if flag_word & 0x2000 == 0x2000 {
            flag_values.push(ClassAccessPropertyFlags::Interface);
        }
        if flag_word & 0x4000 == 0x4000 {
            flag_values.push(ClassAccessPropertyFlags::Abstract);
        }
        proof {
            assert(flag_values@ =~= class_flags_of(flag_word));
        }
        flag_values
    }

    /// Decodes a whole class file (JVMS 4.1): header, constant pool,
    /// access flags and class indices, fields, methods and class
    /// attributes. The magic number is checked, the pool is
    /// canonicalized, and the this and super class entries are
    /// resolved through it.
    #[verifier::rlimit(100)]
    #[verifier::spinoff_prover]
    pub fn new(bytes: &[u8]) -> (res: Result<Class, ParseError>)
        ensures
            res matches Err(ParseError::BadMagic(m)) ==> bytes@.len() >= 4 && m == be32_at(
                bytes@,
                0,
            ) && m != 0xCAFEBABEu32,
            bytes@.len() >= 4 && be32_at(bytes@, 0) != 0xCAFEBABEu32 ==> res == Err::<
                Class,
                ParseError,
            >(ParseError::BadMagic(be32_at(bytes@, 0))),
            minimal_class_ready(bytes@) ==> res is Ok,
            res matches Ok(c) ==> {
                &&& bytes@.len() >= 10
                &&& be32_at(bytes@, 0) == 0xCAFEBABEu32
                &&& c.minor_version == be16_at(bytes@, 4)
                &&& c.major_version == be16_at(bytes@, 6)
                &&& c.constant_pool.length == be16_at(bytes@, 8)
                &&& exists|raw: Seq<ConstantPoolItem>|
                    {
                        &&& #[trigger] are_cp_items_at(
                            bytes@,
                            10,
                            1,
                            c.constant_pool.length as int,
                            raw,
                        )
                        &&& c.constant_pool.constants@ == canonical_pool(raw)
                        &&& {
                            let p = 10 + cp_items_size(raw);
                            &&& c.flags@ == class_flags_of(be16_at(bytes@, p))
                            &&& pool_at(c.constant_pool.constants@, be16_at(bytes@, p + 2))
                                == Some(ConstantPoolItem::Class(c.this_class))
                            &&& pool_at(c.constant_pool.constants@, be16_at(bytes@, p + 4))
                                == Some(ConstantPoolItem::Class(c.super_class))
                            &&& c.fields.fields_count == be16_at(
                                bytes@,
                                p + 8 + 2 * (be16_at(bytes@, p + 6) as int),
                            )
                        }
                &&& c.fields.fields@.len() == c.fields.fields_count as int
                &&& c.methods.methods@.len() == c.methods.method_count as int
                &&& c.attributes.attributes@.len() == c.attributes.attribute_count as int
                    }
            },
    {
        let ghost ant = minimal_class_ready(bytes@);
        let mut stream = ByteReader::new(bytes);
        let header = Header::read(&mut stream)?;
        proof {
            if ant {
                let w = choose|items: Seq<ConstantPoolItem>| minimal_class_witness(bytes@, items);
                assert(are_cp_items_at(bytes@, 10, 1, be16_at(bytes@, 8) as int, w));
                assert(cp_run_exists(bytes@, 8));
            }
        }
        let raw_constant_pool = RawConstantPool::read(&mut stream)?;
        let ghost raw_items = raw_constant_pool.constants@;
        let constant_pool = ConstantPool::from(raw_constant_pool);
        proof {
            if ant {
                let w = choose|items: Seq<ConstantPoolItem>| minimal_class_witness(bytes@, items);
                lemma_canonical_pool_functional(
                    bytes@,
                    10,
                    1,
                    be16_at(bytes@, 8) as int,
                    raw_items,
                    w,
                );
                let p = 10 + cp_items_size(raw_items);
                let q = p + 8 + 2 * (be16_at(bytes@, p + 6) as int);
                assert(q + 6 <= bytes@.len());
                let ti = be16_at(bytes@, p + 2);
                let si = be16_at(bytes@, p + 4);
                assert(pool_slot_similar(
                    canonical_pool(raw_items)[ti as int],
                    canonical_pool(w)[ti as int],
                ));
                assert(pool_slot_similar(
                    canonical_pool(raw_items)[si as int],
                    canonical_pool(w)[si as int],
                ));
                assert(pool_at(constant_pool.constants@, ti) matches Some(
                    ConstantPoolItem::Class(_),
                ));
                assert(pool_at(constant_pool.constants@, si) matches Some(
                    ConstantPoolItem::Class(_),
                ));
            }
        }
        let parameters = Parameters::read(&mut stream)?;
        let this_class = match constant_pool.get_class(parameters.this_class) {
            Ok(c) => c,
            Err(e) => {
                proof {
                    if ant {
                        assert(false);
                    }
                }
                return Err(ParseError::Pool(e));
            },
        };
        let super_class = match constant_pool.get_class(parameters.super_class) {
            Ok(c) => c,
            Err(e) => {
                proof {
                    if ant {
                        assert(false);
                    }
                }
                return Err(ParseError::Pool(e));
            },
        };
        let fields = Fields::read(&mut stream, &constant_pool)?;
        let methods = Methods::read(&mut stream, &constant_pool)?;
        let attributes = ClassAttributes::read(&mut stream, &constant_pool)?;
        let flags = Self::get_access_flags(parameters.access_flags);
        let result = Class {
            major_version: header.major_version,
            minor_version: header.minor_version,
            constant_pool,
            flags,
            this_class,
            super_class,
            fields,
            methods,
            attributes,
        };
        proof {
            let p = 10 + cp_items_size(raw_items);
            assert(are_cp_items_at(bytes@, 10, 1, result.constant_pool.length as int, raw_items));
            assert(result.constant_pool.constants@ == canonical_pool(raw_items));
            assert(result.flags@ == class_flags_of(be16_at(bytes@, p)));
            assert(pool_at(result.constant_pool.constants@, be16_at(bytes@, p + 2)) == Some(
                ConstantPoolItem::Class(result.this_class),
            ));
            assert(pool_at(result.constant_pool.constants@, be16_at(bytes@, p + 4)) == Some(
                ConstantPoolItem::Class(result.super_class),
            ));
            assert(result.fields.fields_count == be16_at(
                bytes@,
                p + 8 + 2 * (be16_at(bytes@, p + 6) as int),
            ));
        }
        Ok(result)
    }
}

} // verus!
