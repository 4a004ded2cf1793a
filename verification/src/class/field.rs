//! The field_info structure (JVMS 4.5).
use vstd::prelude::*;

use crate::class::attribute::Attribute;
use crate::class::constant_pool::ConstantPool;
use crate::class::reader::{be16_at, ByteReader, ParseError};

verus! {

/// A field_info record: access flags, name and descriptor indices,
/// and the field's attributes.
#[derive(Debug, PartialEq)]
pub struct Field {
    pub access_flags: u16,
    pub name_index: u16,
    pub descriptor_index: u16,
    pub attributes_count: u16,
    pub attributes: Vec<Attribute>,
}

impl Field {
    /// Reads one field_info record; its attributes dispatch through
    /// the constant pool.
    pub fn read(r: &mut ByteReader, pool: &ConstantPool) -> (res: Result<Field, ParseError>)
        requires
            old(r).pos <= old(r).bytes@.len(),
        ensures
            (old(r).pos + 8 <= old(r).bytes@.len() && be16_at(old(r).bytes@, old(r).pos + 6)
                == 0) ==> (res is Ok && final(r).pos == old(r).pos + 8),
            res matches Err(e) ==> !(e is BadMagic),
            final(r).bytes@ == old(r).bytes@,
            final(r).pos >= old(r).pos,
            final(r).pos <= final(r).bytes@.len(),
            res matches Ok(f) ==> {
                &&& f.access_flags == be16_at(old(r).bytes@, old(r).pos as int)
                &&& f.name_index == be16_at(old(r).bytes@, old(r).pos + 2)
                &&& f.descriptor_index == be16_at(old(r).bytes@, old(r).pos + 4)
                &&& f.attributes_count == be16_at(old(r).bytes@, old(r).pos + 6)
                &&& f.attributes@.len() == f.attributes_count as int
                &&& final(r).pos >= old(r).pos + 8
            },
    {
        let access_flags = r.read_u16()?;
        let name_index = r.read_u16()?;
        let descriptor_index = r.read_u16()?;
        let attributes_count = r.read_u16()?;
        let mut attributes: Vec<Attribute> = Vec::new();
        let mut i: u16 = 0;
        while i < attributes_count
            invariant
                i <= attributes_count,
                attributes_count == be16_at(old(r).bytes@, old(r).pos + 6),
                (attributes_count == 0 ==> r.pos == old(r).pos + 8),
                attributes@.len() == i as int,
                r.bytes@ == old(r).bytes@,
                r.pos >= old(r).pos + 8,
                r.pos <= r.bytes@.len(),
            decreases attributes_count - i,
        {
            let attribute = Attribute::read(r, pool)?;
            attributes.push(attribute);
            i = i + 1;
        }
        Ok(Field { access_flags, name_index, descriptor_index, attributes_count, attributes })
    }
}

} // verus!
