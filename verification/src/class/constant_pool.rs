//! The constant pool: sum-typed entries, the canonical sparse index
//! that accounts for the double-slot rule of JVMS 4.4.5, and typed
//! accessors.
use vstd::prelude::*;
use vstd::string::StringExecFns;

use crate::class::reader::{be16_at, be32_at, be64_at, ByteReader, ParseError};

verus! {

/// A constant pool as read from the class file, before canonical
/// indexing: the declared slot count and the raw entry records in file
/// order.
#[derive(Debug)]
pub struct RawConstantPool {
    pub constant_pool_count: u16,
    pub constants: Vec<ConstantPoolItem>,
}

/// The canonical constant pool. Slot `i` of `constants` holds the
/// entry with logical index `i`; slot 0 and the slot after each long
/// or double entry are deliberately absent.
#[derive(Debug)]
pub struct ConstantPool {
    /// The declared slot count (`constant_pool_count` in the file).
    pub length: u16,
    pub constants: Vec<Option<ConstantPoolItem>>,
}

/// A failed access to an absent or out-of-range index, carrying the
/// index that was asked for.
#[derive(Clone, Copy, Debug, PartialEq, Eq, Structural)]
pub struct IndexError {
    pub index: u16,
}

/// An access that found an entry of the wrong kind, carrying the names
/// of the kind that was wanted and the kind that was found.
#[derive(Clone, Debug, PartialEq)]
pub struct TypeError {
    pub wanted_type: String,
    pub actual_type: String,
}

/// Why a typed lookup failed: no entry at the index, or an entry of
/// another kind.
#[derive(Clone, Debug, PartialEq)]
pub enum LookupError {
    BadIndex(IndexError),
    WrongType(TypeError),
}

/// True of the entries that occupy two constant pool slots
/// (JVMS 4.4.5): longs and doubles.
pub open spec fn is_wide_entry(item: ConstantPoolItem) -> bool {
    item is Long || item is Double
}

/// The canonical slot cells contributed by raw entries in file order:
/// one populated cell per entry, followed by an absent cell after each
/// long or double entry.
pub open spec fn pool_cells(raw: Seq<ConstantPoolItem>) -> Seq<Option<ConstantPoolItem>>
    decreases raw.len(),
{
    if raw.len() == 0 {
        Seq::empty()
    } else {
        let first: Seq<Option<ConstantPoolItem>> = if is_wide_entry(raw[0]) {
            seq![Some(raw[0]), None]
        } else {
            seq![Some(raw[0])]
        };
        first + pool_cells(raw.drop_first())
    }
}

/// The canonical pool layout for a raw entry sequence: slot 0 is
/// always absent (indices are 1-based), then the cells of the entries.
pub open spec fn canonical_pool(raw: Seq<ConstantPoolItem>) -> Seq<Option<ConstantPoolItem>> {
    seq![Option::None] + pool_cells(raw)
}

/// The entry at a logical pool index, if the index is in range and the
/// slot is populated.
pub open spec fn pool_at(s: Seq<Option<ConstantPoolItem>>, index: u16) -> Option<ConstantPoolItem> {
    if index < s.len() {
        s[index as int]
    } else {
        None
    }
}

/// The number of long and double entries in a raw entry sequence.
pub open spec fn count_wide(raw: Seq<ConstantPoolItem>) -> nat
    decreases raw.len(),
{
    if raw.len() == 0 {
        0
    } else {
        (if is_wide_entry(raw[0]) { 1 as nat } else { 0 as nat }) + count_wide(raw.drop_first())
    }
}

/// The number of populated slots in a canonical layout.
pub open spec fn count_populated(s: Seq<Option<ConstantPoolItem>>) -> nat
    decreases s.len(),
{
    if s.len() == 0 {
        0
    } else {
        (if s[0] is Some { 1 as nat } else { 0 as nat }) + count_populated(s.drop_first())
    }
}

/// The name of an entry's kind, as reported in type errors.
pub open spec fn item_kind_name(item: ConstantPoolItem) -> Seq<char> {
    match item {
        ConstantPoolItem::Utf8(_) => "Utf8"@,
        ConstantPoolItem::Integer(_) => "Integer"@,
        ConstantPoolItem::Float(_) => "Float"@,
        ConstantPoolItem::Long(_) => "Long"@,
        ConstantPoolItem::Double(_) => "Double"@,
        ConstantPoolItem::Class(_) => "Class"@,
        ConstantPoolItem::String(_) => "String"@,
        ConstantPoolItem::FieldRef(_) => "FieldRef"@,
        ConstantPoolItem::MethodRef(_) => "MethodRef"@,
        ConstantPoolItem::InterfaceMethodRef(_) => "InterfaceMethodRef"@,
        ConstantPoolItem::NameAndType(_) => "NameAndType"@,
    }
}

/// The name of an entry's kind, for a type error's message fields.
pub fn kind_name(item: &ConstantPoolItem) -> (s: String)
    ensures
        s@ == item_kind_name(*item),
{
    match item {
        ConstantPoolItem::Utf8(_) => String::from_str("Utf8"),
        ConstantPoolItem::Integer(_) => String::from_str("Integer"),
        ConstantPoolItem::Float(_) => String::from_str("Float"),
        ConstantPoolItem::Long(_) => String::from_str("Long"),
        ConstantPoolItem::Double(_) => String::from_str("Double"),
        ConstantPoolItem::Class(_) => String::from_str("Class"),
        ConstantPoolItem::String(_) => String::from_str("String"),
        ConstantPoolItem::FieldRef(_) => String::from_str("FieldRef"),
        ConstantPoolItem::MethodRef(_) => String::from_str("MethodRef"),
        ConstantPoolItem::InterfaceMethodRef(_) => String::from_str("InterfaceMethodRef"),
        ConstantPoolItem::NameAndType(_) => String::from_str("NameAndType"),
    }
}

impl ConstantPool {
    /// An empty pool: no declared slots and no entries.
    pub fn new() -> (pool: ConstantPool)
        ensures
            pool.length == 0,
            pool.constants@ == Seq::<Option<ConstantPoolItem>>::empty(),
    {
        ConstantPool { length: 0, constants: Vec::new() }
    }

    /// Builds the canonical pool from a raw one, keeping the declared
    /// slot count.
    pub fn from(raw: RawConstantPool) -> (pool: ConstantPool)
        ensures
            pool.length == raw.constant_pool_count,
            pool.constants@ == canonical_pool(raw.constants@),
    {
        let length = raw.constant_pool_count;
        let canonical = Self::canonical_constant_pool_from(raw.constants);
        ConstantPool { length, constants: canonical }
    }

    /// Converts raw entries to canonical form: entries are assigned
    /// 1-based logical indices in order, and a long or double entry
    /// leaves the following index deliberately absent (JVMS 4.4.5).
    pub fn canonical_constant_pool_from(raw: Vec<ConstantPoolItem>) -> (pool: Vec<Option<ConstantPoolItem>>)
        ensures
            pool@ == canonical_pool(raw@),
    {
        let ghost orig = raw@;
        let mut raw = raw;
        let mut pool: Vec<Option<ConstantPoolItem>> = Vec::new();
        pool.push(None);
        proof {
            assert(pool@ =~= canonical_pool(orig.subrange(0, 0)));
            assert(orig.subrange(0, orig.len() as int) =~= orig);
        }
        while raw.len() > 0
            invariant
                raw@.len() <= orig.len(),
                raw@ == orig.subrange(orig.len() - raw.len(), orig.len() as int),
                pool@ == canonical_pool(orig.subrange(0, orig.len() - raw.len())),
            decreases raw.len(),
        {
            let ghost done = orig.len() - raw@.len();
            let item = raw.remove(0);
            assert(item == orig[done]);
            let wide = matches!(item, ConstantPoolItem::Long(_) | ConstantPoolItem::Double(_));
            pool.push(Some(item));
            if wide {
                pool.push(None);
            }
            proof {
                lemma_pool_cells_push(orig.subrange(0, done), orig[done]);
                assert(orig.subrange(0, done).push(orig[done]) =~= orig.subrange(0, done + 1));
                assert(pool@ =~= canonical_pool(orig.subrange(0, done + 1)));
                assert(raw@ =~= orig.subrange(orig.len() - raw@.len(), orig.len() as int));
            }
        }
        proof {
            assert(orig.subrange(0, orig.len() as int) =~= orig);
        }
        pool
    }

    /// Returns the `Utf8` entry at `index`, or says why there is none:
    /// an absent or out-of-range slot, or an entry of another kind.
    pub fn get_utf8(&self, index: u16) -> (r: Result<Utf8, LookupError>)
        ensures
            match r {
                Ok(v) => (pool_at(self.constants@, index) matches Some(ConstantPoolItem::Utf8(stored))
                    && v.length == stored.length && v.bytes@ == stored.bytes@),
                Err(LookupError::BadIndex(ie)) => ie.index == index && pool_at(self.constants@, index) is None,
                Err(LookupError::WrongType(te)) => {
                    &&& pool_at(self.constants@, index) matches Some(entry)
                    &&& !(entry is Utf8)
                    &&& te.wanted_type@ == "Utf8"@
                    &&& te.actual_type@ == item_kind_name(entry)
                },
            },
    {
        if (index as usize) < self.constants.len() {
            match &self.constants[index as usize] {
                Some(ConstantPoolItem::Utf8(itm)) => Ok(itm.clone()),
                Some(other) => Err(LookupError::WrongType(TypeError {
                    wanted_type: String::from_str("Utf8"),
                    actual_type: kind_name(other),
                })),
                None => Err(LookupError::BadIndex(IndexError { index })),
            }
        } else {
            Err(LookupError::BadIndex(IndexError { index }))
        }
    }

    /// Returns the `Integer` entry at `index`, or says why there is none:
    /// an absent or out-of-range slot, or an entry of another kind.
    pub fn get_int(&self, index: u16) -> (r: Result<Integer, LookupError>)
        ensures
            match r {
                Ok(v) => pool_at(self.constants@, index) == Some(ConstantPoolItem::Integer(v)),
                Err(LookupError::BadIndex(ie)) => ie.index == index && pool_at(self.constants@, index) is None,
                Err(LookupError::WrongType(te)) => {
                    &&& pool_at(self.constants@, index) matches Some(entry)
                    &&& !(entry is Integer)
                    &&& te.wanted_type@ == "Integer"@
                    &&& te.actual_type@ == item_kind_name(entry)
                },
            },
    {
        if (index as usize) < self.constants.len() {
            match &self.constants[index as usize] {
                Some(ConstantPoolItem::Integer(itm)) => Ok(*itm),
                Some(other) => Err(LookupError::WrongType(TypeError {
                    wanted_type: String::from_str("Integer"),
                    actual_type: kind_name(other),
                })),
                None => Err(LookupError::BadIndex(IndexError { index })),
            }
        } else {
            Err(LookupError::BadIndex(IndexError { index }))
        }
    }

    /// Returns the `Float` entry at `index`, or says why there is none:
    /// an absent or out-of-range slot, or an entry of another kind.
    pub fn get_float(&self, index: u16) -> (r: Result<Float, LookupError>)
        ensures
            match r {
                Ok(v) => pool_at(self.constants@, index) == Some(ConstantPoolItem::Float(v)),
                Err(LookupError::BadIndex(ie)) => ie.index == index && pool_at(self.constants@, index) is None,
                Err(LookupError::WrongType(te)) => {
                    &&& pool_at(self.constants@, index) matches Some(entry)
                    &&& !(entry is Float)
                    &&& te.wanted_type@ == "Float"@
                    &&& te.actual_type@ == item_kind_name(entry)
                },
            },
    {
        if (index as usize) < self.constants.len() {
            match &self.constants[index as usize] {
                Some(ConstantPoolItem::Float(itm)) => Ok(*itm),
                Some(other) => Err(LookupError::WrongType(TypeError {
                    wanted_type: String::from_str("Float"),
                    actual_type: kind_name(other),
                })),
                None => Err(LookupError::BadIndex(IndexError { index })),
            }
        } else {
            Err(LookupError::BadIndex(IndexError { index }))
        }
    }

    /// Returns the `Long` entry at `index`, or says why there is none:
    /// an absent or out-of-range slot, or an entry of another kind.
    pub fn get_long(&self, index: u16) -> (r: Result<Long, LookupError>)
        ensures
            match r {
                Ok(v) => pool_at(self.constants@, index) == Some(ConstantPoolItem::Long(v)),
                Err(LookupError::BadIndex(ie)) => ie.index == index && pool_at(self.constants@, index) is None,
                Err(LookupError::WrongType(te)) => {
                    &&& pool_at(self.constants@, index) matches Some(entry)
                    &&& !(entry is Long)
                    &&& te.wanted_type@ == "Long"@
                    &&& te.actual_type@ == item_kind_name(entry)
                },
            },
    {
        if (index as usize) < self.constants.len() {
            match &self.constants[index as usize] {
                Some(ConstantPoolItem::Long(itm)) => Ok(*itm),
                Some(other) => Err(LookupError::WrongType(TypeError {
                    wanted_type: String::from_str("Long"),
                    actual_type: kind_name(other),
                })),
                None => Err(LookupError::BadIndex(IndexError { index })),
            }
        } else {
            Err(LookupError::BadIndex(IndexError { index }))
        }
    }

    /// Returns the `Double` entry at `index`, or says why there is none:
    /// an absent or out-of-range slot, or an entry of another kind.
    pub fn get_double(&self, index: u16) -> (r: Result<Double, LookupError>)
        ensures
            match r {
                Ok(v) => pool_at(self.constants@, index) == Some(ConstantPoolItem::Double(v)),
                Err(LookupError::BadIndex(ie)) => ie.index == index && pool_at(self.constants@, index) is None,
                Err(LookupError::WrongType(te)) => {
                    &&& pool_at(self.constants@, index) matches Some(entry)
                    &&& !(entry is Double)
                    &&& te.wanted_type@ == "Double"@
                    &&& te.actual_type@ == item_kind_name(entry)
                },
            },
    {
        if (index as usize) < self.constants.len() {
            match &self.constants[index as usize] {
                Some(ConstantPoolItem::Double(itm)) => Ok(*itm),
                Some(other) => Err(LookupError::WrongType(TypeError {
                    wanted_type: String::from_str("Double"),
                    actual_type: kind_name(other),
                })),
                None => Err(LookupError::BadIndex(IndexError { index })),
            }
        } else {
            Err(LookupError::BadIndex(IndexError { index }))
        }
    }

    /// Returns the `Class` entry at `index`, or says why there is none:
    /// an absent or out-of-range slot, or an entry of another kind.
    pub fn get_class(&self, index: u16) -> (r: Result<Class, LookupError>)
        ensures
            match r {
                Ok(v) => pool_at(self.constants@, index) == Some(ConstantPoolItem::Class(v)),
                Err(LookupError::BadIndex(ie)) => ie.index == index && pool_at(self.constants@, index) is None,
                Err(LookupError::WrongType(te)) => {
                    &&& pool_at(self.constants@, index) matches Some(entry)
                    &&& !(entry is Class)
                    &&& te.wanted_type@ == "Class"@
                    &&& te.actual_type@ == item_kind_name(entry)
                },
            },
    {
        if (index as usize) < self.constants.len() {
            match &self.constants[index as usize] {
                Some(ConstantPoolItem::Class(itm)) => Ok(*itm),
                Some(other) => Err(LookupError::WrongType(TypeError {
                    wanted_type: String::from_str("Class"),
                    actual_type: kind_name(other),
                })),
                None => Err(LookupError::BadIndex(IndexError { index })),
            }
        } else {
            Err(LookupError::BadIndex(IndexError { index }))
        }
    }

    /// Returns the `String` entry at `index`, or says why there is none:
    /// an absent or out-of-range slot, or an entry of another kind.
    pub fn get_string(&self, index: u16) -> (r: Result<StringInfo, LookupError>)
        ensures
            match r {
                Ok(v) => pool_at(self.constants@, index) == Some(ConstantPoolItem::String(v)),
                Err(LookupError::BadIndex(ie)) => ie.index == index && pool_at(self.constants@, index) is None,
                Err(LookupError::WrongType(te)) => {
                    &&& pool_at(self.constants@, index) matches Some(entry)
                    &&& !(entry is String)
                    &&& te.wanted_type@ == "String"@
                    &&& te.actual_type@ == item_kind_name(entry)
                },
            },
    {
        if (index as usize) < self.constants.len() {
            match &self.constants[index as usize] {
                Some(ConstantPoolItem::String(itm)) => Ok(*itm),
                Some(other) => Err(LookupError::WrongType(TypeError {
                    wanted_type: String::from_str("String"),
                    actual_type: kind_name(other),
                })),
                None => Err(LookupError::BadIndex(IndexError { index })),
            }
        } else {
            Err(LookupError::BadIndex(IndexError { index }))
        }
    }

    /// Returns the `FieldRef` entry at `index`, or says why there is none:
    /// an absent or out-of-range slot, or an entry of another kind.
    pub fn get_field_ref(&self, index: u16) -> (r: Result<FieldRef, LookupError>)
        ensures
            match r {
                Ok(v) => pool_at(self.constants@, index) == Some(ConstantPoolItem::FieldRef(v)),
                Err(LookupError::BadIndex(ie)) => ie.index == index && pool_at(self.constants@, index) is None,
                Err(LookupError::WrongType(te)) => {
                    &&& pool_at(self.constants@, index) matches Some(entry)
                    &&& !(entry is FieldRef)
                    &&& te.wanted_type@ == "FieldRef"@
                    &&& te.actual_type@ == item_kind_name(entry)
                },
            },
    {
        if (index as usize) < self.constants.len() {
            match &self.constants[index as usize] {
                Some(ConstantPoolItem::FieldRef(itm)) => Ok(*itm),
                Some(other) => Err(LookupError::WrongType(TypeError {
                    wanted_type: String::from_str("FieldRef"),
                    actual_type: kind_name(other),
                })),
                None => Err(LookupError::BadIndex(IndexError { index })),
            }
        } else {
            Err(LookupError::BadIndex(IndexError { index }))
        }
    }

    /// Returns the `MethodRef` entry at `index`, or says why there is none:
    /// an absent or out-of-range slot, or an entry of another kind.
    pub fn get_method_ref(&self, index: u16) -> (r: Result<MethodRef, LookupError>)
        ensures
            match r {
                Ok(v) => pool_at(self.constants@, index) == Some(ConstantPoolItem::MethodRef(v)),
                Err(LookupError::BadIndex(ie)) => ie.index == index && pool_at(self.constants@, index) is None,
                Err(LookupError::WrongType(te)) => {
                    &&& pool_at(self.constants@, index) matches Some(entry)
                    &&& !(entry is MethodRef)
                    &&& te.wanted_type@ == "MethodRef"@
                    &&& te.actual_type@ == item_kind_name(entry)
                },
            },
    {
        if (index as usize) < self.constants.len() {
            match &self.constants[index as usize] {
                Some(ConstantPoolItem::MethodRef(itm)) => Ok(*itm),
                Some(other) => Err(LookupError::WrongType(TypeError {
                    wanted_type: String::from_str("MethodRef"),
                    actual_type: kind_name(other),
                })),
                None => Err(LookupError::BadIndex(IndexError { index })),
            }
        } else {
            Err(LookupError::BadIndex(IndexError { index }))
        }
    }

    /// Returns the `InterfaceMethodRef` entry at `index`, or says why there is none:
    /// an absent or out-of-range slot, or an entry of another kind.
    pub fn get_interface_method_ref(&self, index: u16) -> (r: Result<InterfaceMethodRef, LookupError>)
        ensures
            match r {
                Ok(v) => pool_at(self.constants@, index) == Some(ConstantPoolItem::InterfaceMethodRef(v)),
                Err(LookupError::BadIndex(ie)) => ie.index == index && pool_at(self.constants@, index) is None,
                Err(LookupError::WrongType(te)) => {
                    &&& pool_at(self.constants@, index) matches Some(entry)
                    &&& !(entry is InterfaceMethodRef)
                    &&& te.wanted_type@ == "InterfaceMethodRef"@
                    &&& te.actual_type@ == item_kind_name(entry)
                },
            },
    {
        if (index as usize) < self.constants.len() {
            match &self.constants[index as usize] {
                Some(ConstantPoolItem::InterfaceMethodRef(itm)) => Ok(*itm),
                Some(other) => Err(LookupError::WrongType(TypeError {
                    wanted_type: String::from_str("InterfaceMethodRef"),
                    actual_type: kind_name(other),
                })),
                None => Err(LookupError::BadIndex(IndexError { index })),
            }
        } else {
            Err(LookupError::BadIndex(IndexError { index }))
        }
    }

    /// Returns the `NameAndType` entry at `index`, or says why there is none:
    /// an absent or out-of-range slot, or an entry of another kind.
    pub fn get_name_and_type(&self, index: u16) -> (r: Result<NameAndType, LookupError>)
        ensures
            match r {
                Ok(v) => pool_at(self.constants@, index) == Some(ConstantPoolItem::NameAndType(v)),
                Err(LookupError::BadIndex(ie)) => ie.index == index && pool_at(self.constants@, index) is None,
                Err(LookupError::WrongType(te)) => {
                    &&& pool_at(self.constants@, index) matches Some(entry)
                    &&& !(entry is NameAndType)
                    &&& te.wanted_type@ == "NameAndType"@
                    &&& te.actual_type@ == item_kind_name(entry)
                },
            },
    {
        if (index as usize) < self.constants.len() {
            match &self.constants[index as usize] {
                Some(ConstantPoolItem::NameAndType(itm)) => Ok(*itm),
                Some(other) => Err(LookupError::WrongType(TypeError {
                    wanted_type: String::from_str("NameAndType"),
                    actual_type: kind_name(other),
                })),
                None => Err(LookupError::BadIndex(IndexError { index })),
            }
        } else {
            Err(LookupError::BadIndex(IndexError { index }))
        }
    }
}

/// Appending one raw entry appends its cells to the canonical layout.
proof fn lemma_pool_cells_push(raw: Seq<ConstantPoolItem>, item: ConstantPoolItem)
    ensures
        pool_cells(raw.push(item)) == pool_cells(raw) + (if is_wide_entry(item) {
            seq![Some(item), Option::<ConstantPoolItem>::None]
        } else {
            seq![Some(item)]
        }),
    decreases raw.len(),
{
    let cell: Seq<Option<ConstantPoolItem>> = if is_wide_entry(item) {
        seq![Some(item), None]
    } else {
        seq![Some(item)]
    };
    if raw.len() == 0 {
        reveal_with_fuel(pool_cells, 3);
        assert(raw.push(item) =~= seq![item]);
        assert(raw.push(item)[0] == item);
        assert(raw.push(item).drop_first() =~= Seq::<ConstantPoolItem>::empty());
        assert(pool_cells(raw.push(item)) =~= pool_cells(raw) + cell);
    } else {
        let f0: Seq<Option<ConstantPoolItem>> = if is_wide_entry(raw[0]) {
            seq![Some(raw[0]), None]
        } else {
            seq![Some(raw[0])]
        };
        assert(raw.push(item).len() == raw.len() + 1);
        assert(raw.push(item)[0] == raw[0]);
        assert(raw.push(item).drop_first() =~= raw.drop_first().push(item));
        lemma_pool_cells_push(raw.drop_first(), item);
        assert(pool_cells(raw.drop_first().push(item)) == pool_cells(raw.drop_first()) + cell);
        assert(pool_cells(raw.push(item)) == f0 + pool_cells(raw.drop_first().push(item)));
        assert(pool_cells(raw) == f0 + pool_cells(raw.drop_first()));
        vstd::seq_lib::lemma_concat_associative(f0, pool_cells(raw.drop_first()), cell);
        assert(pool_cells(raw.push(item)) == pool_cells(raw) + cell);
    }
}

/// True when slot `i` of a canonical layout holds a long or double
/// entry.
pub open spec fn is_wide_at(s: Seq<Option<ConstantPoolItem>>, i: int) -> bool {
    0 <= i < s.len() && (s[i] matches Some(e) && is_wide_entry(e))
}

/// The double-slot rule, over the cells alone: the cell count is the
/// entry count plus one per long or double entry, every entry yields
/// exactly one populated cell, and each long or double cell is
/// followed, in range, by an absent cell.
proof fn lemma_pool_cells_shape(raw: Seq<ConstantPoolItem>)
    ensures
        pool_cells(raw).len() == raw.len() + count_wide(raw),
        count_populated(pool_cells(raw)) == raw.len(),
        forall|i: int| is_wide_at(pool_cells(raw), i)
            ==> i + 1 < pool_cells(raw).len() && pool_cells(raw)[i + 1] is None,
    decreases raw.len(),
{
    if raw.len() == 0 {
    } else {
        let rest = pool_cells(raw.drop_first());
        let cell: Seq<Option<ConstantPoolItem>> = if is_wide_entry(raw[0]) {
            seq![Some(raw[0]), None]
        } else {
            seq![Some(raw[0])]
        };
        lemma_pool_cells_shape(raw.drop_first());
        lemma_count_populated_add(cell, rest);
        assert(count_populated(cell) == 1) by {
            reveal_with_fuel(count_populated, 3);
            assert(cell.drop_first().len() == cell.len() - 1);
            if is_wide_entry(raw[0]) {
                assert(cell.drop_first() =~= seq![Option::<ConstantPoolItem>::None]);
                assert(cell.drop_first().drop_first() =~= Seq::<Option<ConstantPoolItem>>::empty());
            } else {
                assert(cell.drop_first() =~= Seq::<Option<ConstantPoolItem>>::empty());
            }
        }
        assert forall|i: int| is_wide_at(pool_cells(raw), i)
            implies i + 1 < pool_cells(raw).len() && pool_cells(raw)[i + 1] is None by {
            let cells = pool_cells(raw);
            if i < cell.len() {
                assert(cells[i] == cell[i]);
            } else {
                assert(cells[i] == rest[i - cell.len()]);
                assert(is_wide_at(rest, i - cell.len()));
            }
        }
    }
}

/// Populated-slot counts add over concatenation.
proof fn lemma_count_populated_add(a: Seq<Option<ConstantPoolItem>>, b: Seq<Option<ConstantPoolItem>>)
    ensures
        count_populated(a + b) == count_populated(a) + count_populated(b),
    decreases a.len(),
{
    if a.len() == 0 {
        assert(a + b =~= b);
    } else {
        assert((a + b).drop_first() =~= a.drop_first() + b);
        lemma_count_populated_add(a.drop_first(), b);
    }
}

/// The double-slot rule (JVMS 4.4.5). For a canonical pool built from
/// raw entries with `L` long or double entries, the declared slot
/// count is `C = 1 + raw.len() + L`, so the populated slots number
/// exactly `C - 1 - L`; slot 0 is absent; and the slot following each
/// long or double entry is, in range, absent.
pub proof fn lemma_canonical_pool_shape(raw: Seq<ConstantPoolItem>)
    ensures
        canonical_pool(raw).len() == 1 + raw.len() + count_wide(raw),
        count_populated(canonical_pool(raw)) == raw.len(),
        canonical_pool(raw)[0] is None,
        forall|i: int| is_wide_at(canonical_pool(raw), i)
            ==> i + 1 < canonical_pool(raw).len() && canonical_pool(raw)[i + 1] is None,
{
    let pool = canonical_pool(raw);
    let cells = pool_cells(raw);
    lemma_pool_cells_shape(raw);
    lemma_count_populated_add(seq![Option::None], cells);
    assert(count_populated(seq![Option::<ConstantPoolItem>::None]) == 0) by {
        reveal_with_fuel(count_populated, 2);
        assert(seq![Option::<ConstantPoolItem>::None].drop_first()
            =~= Seq::<Option<ConstantPoolItem>>::empty());
    }
    assert forall|i: int| is_wide_at(pool, i)
        implies i + 1 < pool.len() && pool[i + 1] is None by {
        assert(pool[i] == cells[i - 1]);
        assert(is_wide_at(cells, i - 1));
    }
}

/// A control enum for the polymorphic parsing of constant pool
/// entries, one variant per tag of JVMS Table 4.4-B.
#[derive(Clone, Debug, PartialEq)]
pub enum ConstantPoolItem {
    /// CONSTANT_Utf8 (tag 1)
    Utf8(Utf8),
    /// CONSTANT_Integer (tag 3)
    Integer(Integer),
    /// CONSTANT_Float (tag 4)
    Float(Float),
    /// CONSTANT_Long (tag 5)
    Long(Long),
    /// CONSTANT_Double (tag 6)
    Double(Double),
    /// CONSTANT_Class (tag 7)
    Class(Class),
    /// CONSTANT_String (tag 8)
    String(StringInfo),
    /// CONSTANT_Fieldref (tag 9)
    FieldRef(FieldRef),
    /// CONSTANT_Methodref (tag 10)
    MethodRef(MethodRef),
    /// CONSTANT_InterfaceMethodref (tag 11)
    InterfaceMethodRef(InterfaceMethodRef),
    /// CONSTANT_NameAndType (tag 12)
    NameAndType(NameAndType),
}

/// A CONSTANT_Utf8 entry (JVMS 4.4.7): length-prefixed bytes, always
/// interpreted as modified UTF-8.
#[derive(Debug, PartialEq)]
pub struct Utf8 {
    pub length: u16,
    pub bytes: Vec<u8>,
}

impl Clone for Utf8 {
    fn clone(&self) -> (r: Self)
        ensures
            r.length == self.length,
            r.bytes@ == self.bytes@,
    {
        Utf8 { length: self.length, bytes: clone_byte_vec(&self.bytes) }
    }
}

/// A by-value copy of a byte vector.
fn clone_byte_vec(v: &Vec<u8>) -> (r: Vec<u8>)
    ensures
        r@ == v@,
{
    let mut r: Vec<u8> = Vec::new();
    let mut i: usize = 0;
    while i < v.len()
        invariant
            i <= v.len(),
            r@ == v@.subrange(0, i as int),
        decreases v.len() - i,
    {
        r.push(v[i]);
        i = i + 1;
        proof {
            assert(r@ =~= v@.subrange(0, i as int));
        }
    }
    proof {
        assert(v@.subrange(0, v@.len() as int) =~= v@);
    }
    r
}

/// A CONSTANT_Integer entry (JVMS 4.4.4): a signed 32-bit value.
#[derive(Clone, Copy, Debug, PartialEq, Eq, Structural)]
pub struct Integer {
    pub value: i32,
}

/// A CONSTANT_Float entry (JVMS 4.4.4): a 32-bit IEEE-754 value,
/// carried as its big-endian bit pattern.
#[derive(Clone, Copy, Debug, PartialEq, Eq, Structural)]
pub struct Float {
    pub bits: u32,
}

/// A CONSTANT_Long entry (JVMS 4.4.5): a signed 64-bit value.
#[derive(Clone, Copy, Debug, PartialEq, Eq, Structural)]
pub struct Long {
    pub value: i64,
}

/// A CONSTANT_Double entry (JVMS 4.4.5): a 64-bit IEEE-754 value,
/// carried as its big-endian bit pattern.
#[derive(Clone, Copy, Debug, PartialEq, Eq, Structural)]
pub struct Double {
    pub bits: u64,
}

/// A CONSTANT_Class entry (JVMS 4.4.1): the index of the Utf8 entry
/// holding the class name.
#[derive(Clone, Copy, Debug, PartialEq, Eq, Structural)]
pub struct Class {
    pub index: u16,
}

/// A CONSTANT_String entry (JVMS 4.4.3): the index of the Utf8 entry
/// holding the string's contents.
#[derive(Clone, Copy, Debug, PartialEq, Eq, Structural)]
pub struct StringInfo {
    pub index: u16,
}

/// A CONSTANT_Fieldref entry (JVMS 4.4.2).
#[derive(Clone, Copy, Debug, PartialEq, Eq, Structural)]
pub struct FieldRef {
    pub class_index: u16,
    pub name_and_type_index: u16,
}

/// A CONSTANT_Methodref entry (JVMS 4.4.2).
#[derive(Clone, Copy, Debug, PartialEq, Eq, Structural)]
pub struct MethodRef {
    pub class_index: u16,
    pub name_and_type_index: u16,
}

/// A CONSTANT_InterfaceMethodref entry (JVMS 4.4.2).
#[derive(Clone, Copy, Debug, PartialEq, Eq, Structural)]
pub struct InterfaceMethodRef {
    pub class_index: u16,
    pub name_and_type_index: u16,
}

/// A CONSTANT_NameAndType entry (JVMS 4.4.6).
#[derive(Clone, Copy, Debug, PartialEq, Eq, Structural)]
pub struct NameAndType {
    pub name_index: u16,
    pub type_index: u16,
}

/// The encoded size of a constant pool entry record: one tag byte
/// plus its payload (JVMS 4.4).
pub open spec fn cp_entry_size(item: ConstantPoolItem) -> int {
    match item {
        ConstantPoolItem::Utf8(u) => 3 + u.length,
        ConstantPoolItem::Integer(_) => 5,
        ConstantPoolItem::Float(_) => 5,
        ConstantPoolItem::Long(_) => 9,
        ConstantPoolItem::Double(_) => 9,
        ConstantPoolItem::Class(_) => 3,
        ConstantPoolItem::String(_) => 3,
        ConstantPoolItem::FieldRef(_) => 5,
        ConstantPoolItem::MethodRef(_) => 5,
        ConstantPoolItem::InterfaceMethodRef(_) => 5,
        ConstantPoolItem::NameAndType(_) => 5,
    }
}

/// True when `item` is the constant pool entry record encoded at
/// `pos`: its tag byte followed by its big-endian payload, within
/// bounds.
pub open spec fn is_cp_entry_at(bytes: Seq<u8>, pos: int, item: ConstantPoolItem) -> bool {
    &&& pos + cp_entry_size(item) <= bytes.len()
    &&& match item {
        ConstantPoolItem::Utf8(u) => {
            &&& bytes[pos] == 1
            &&& u.length == be16_at(bytes, pos + 1)
            &&& u.bytes@ == bytes.subrange(pos + 3, pos + 3 + u.length)
        },
        ConstantPoolItem::Integer(v) => bytes[pos] == 3 && v.value == be32_at(
            bytes,
            pos + 1,
        ) as i32,
        ConstantPoolItem::Float(v) => bytes[pos] == 4 && v.bits == be32_at(bytes, pos + 1),
        ConstantPoolItem::Long(v) => bytes[pos] == 5 && v.value == be64_at(bytes, pos + 1) as i64,
        ConstantPoolItem::Double(v) => bytes[pos] == 6 && v.bits == be64_at(bytes, pos + 1),
        ConstantPoolItem::Class(v) => bytes[pos] == 7 && v.index == be16_at(bytes, pos + 1),
        ConstantPoolItem::String(v) => bytes[pos] == 8 && v.index == be16_at(bytes, pos + 1),
        ConstantPoolItem::FieldRef(v) => bytes[pos] == 9 && v.class_index == be16_at(
            bytes,
            pos + 1,
        ) && v.name_and_type_index == be16_at(bytes, pos + 3),
        ConstantPoolItem::MethodRef(v) => bytes[pos] == 10 && v.class_index == be16_at(
            bytes,
            pos + 1,
        ) && v.name_and_type_index == be16_at(bytes, pos + 3),
        ConstantPoolItem::InterfaceMethodRef(v) => bytes[pos] == 11 && v.class_index == be16_at(
            bytes,
            pos + 1,
        ) && v.name_and_type_index == be16_at(bytes, pos + 3),
        ConstantPoolItem::NameAndType(v) => bytes[pos] == 12 && v.name_index == be16_at(
            bytes,
            pos + 1,
        ) && v.type_index == be16_at(bytes, pos + 3),
    }
}

/// True when `items` are the consecutive entry records encoded from
/// `pos`, filling the logical indices `idx` up to exactly `count`
/// under the double-slot rule.
pub open spec fn are_cp_items_at(
    bytes: Seq<u8>,
    pos: int,
    idx: int,
    count: int,
    items: Seq<ConstantPoolItem>,
) -> bool
    decreases items.len(),
{
    if items.len() == 0 {
        idx == count
    } else {
        &&& idx < count
        &&& is_cp_entry_at(bytes, pos, items[0])
        &&& are_cp_items_at(
            bytes,
            pos + cp_entry_size(items[0]),
            idx + (if is_wide_entry(items[0]) { 2int } else { 1int }),
            count,
            items.drop_first(),
        )
    }
}

/// The total encoded size of consecutive entry records.
pub open spec fn cp_items_size(items: Seq<ConstantPoolItem>) -> int
    decreases items.len(),
{
    if items.len() == 0 {
        0
    } else {
        cp_entry_size(items[0]) + cp_items_size(items.drop_first())
    }
}

/// The logical slot span of consecutive entry records: one slot per
/// entry, two per long or double.
pub open spec fn cp_items_span(items: Seq<ConstantPoolItem>) -> int
    decreases items.len(),
{
    if items.len() == 0 {
        0
    } else {
        (if is_wide_entry(items[0]) { 2int } else { 1int }) + cp_items_span(items.drop_first())
    }
}

/// Extending a run of parsed entries by one entry parsed at its end.
proof fn lemma_cp_items_push(
    bytes: Seq<u8>,
    pos: int,
    idx: int,
    count: int,
    items: Seq<ConstantPoolItem>,
    item: ConstantPoolItem,
    count2: int,
)
    requires
        are_cp_items_at(bytes, pos, idx, count, items),
        is_cp_entry_at(bytes, pos + cp_items_size(items), item),
        count2 == count + (if is_wide_entry(item) { 2int } else { 1int }),
        count < count2,
    ensures
        are_cp_items_at(bytes, pos, idx, count2, items.push(item)),
        cp_items_size(items.push(item)) == cp_items_size(items) + cp_entry_size(item),
    decreases items.len(),
{
    reveal_with_fuel(are_cp_items_at, 3);
    reveal_with_fuel(cp_items_size, 3);
    if items.len() == 0 {
        assert(items.push(item)[0] == item);
        assert(items.push(item).drop_first() =~= Seq::<ConstantPoolItem>::empty());
        assert(cp_items_size(items) == 0);
        assert(are_cp_items_at(bytes, pos, idx, count2, items.push(item)));
        assert(cp_items_size(items.push(item)) == cp_entry_size(item));
    } else {
        assert(items.push(item)[0] == items[0]);
        assert(items.push(item).drop_first() =~= items.drop_first().push(item));
        lemma_cp_items_push(
            bytes,
            pos + cp_entry_size(items[0]),
            idx + (if is_wide_entry(items[0]) { 2int } else { 1int }),
            count,
            items.drop_first(),
            item,
            count2,
        );
        assert(are_cp_items_at(bytes, pos, idx, count2, items.push(item)));
        assert(cp_items_size(items.push(item)) == cp_items_size(items) + cp_entry_size(item));
    }
}

/// The big-endian byte image of a 16-bit value.
pub open spec fn enc16(v: u16) -> Seq<u8> {
    seq![(v >> 8) as u8, v as u8]
}

/// The big-endian byte image of a 32-bit value.
pub open spec fn enc32(v: u32) -> Seq<u8> {
    seq![(v >> 24) as u8, (v >> 16) as u8, (v >> 8) as u8, v as u8]
}

/// The big-endian byte image of a 64-bit value.
pub open spec fn enc64(v: u64) -> Seq<u8> {
    enc32((v >> 32) as u32) + enc32(v as u32)
}

/// A well-formed entry: a Utf8 entry's declared length is the length
/// of its bytes.
pub open spec fn wf_cp_entry(item: ConstantPoolItem) -> bool {
    match item {
        ConstantPoolItem::Utf8(u) => u.length == u.bytes@.len(),
        _ => true,
    }
}

/// The serialized form of one constant pool entry record: its tag
/// byte followed by its big-endian payload (JVMS 4.4).
pub open spec fn encode_cp_entry(item: ConstantPoolItem) -> Seq<u8> {
    match item {
        ConstantPoolItem::Utf8(u) => seq![1u8] + enc16(u.length) + u.bytes@,
        ConstantPoolItem::Integer(v) => seq![3u8] + enc32(v.value as u32),
        ConstantPoolItem::Float(v) => seq![4u8] + enc32(v.bits),
        ConstantPoolItem::Long(v) => seq![5u8] + enc64(v.value as u64),
        ConstantPoolItem::Double(v) => seq![6u8] + enc64(v.bits),
        ConstantPoolItem::Class(v) => seq![7u8] + enc16(v.index),
        ConstantPoolItem::String(v) => seq![8u8] + enc16(v.index),
        ConstantPoolItem::FieldRef(v) => seq![9u8] + enc16(v.class_index) + enc16(
            v.name_and_type_index,
        ),
        ConstantPoolItem::MethodRef(v) => seq![10u8] + enc16(v.class_index) + enc16(
            v.name_and_type_index,
        ),
        ConstantPoolItem::InterfaceMethodRef(v) => seq![11u8] + enc16(v.class_index) + enc16(
            v.name_and_type_index,
        ),
        ConstantPoolItem::NameAndType(v) => seq![12u8] + enc16(v.name_index) + enc16(v.type_index),
    }
}

/// The serialized form of consecutive entry records.
pub open spec fn encode_cp_items(items: Seq<ConstantPoolItem>) -> Seq<u8>
    decreases items.len(),
{
    if items.len() == 0 {
        Seq::empty()
    } else {
        encode_cp_entry(items[0]) + encode_cp_items(items.drop_first())
    }
}

/// Reading back the image of a 16-bit value yields the value.
proof fn lemma_enc16_at(bytes: Seq<u8>, pos: int, v: u16)
    requires
        0 <= pos,
        pos + 2 <= bytes.len(),
        bytes[pos] == (v >> 8) as u8,
        bytes[pos + 1] == v as u8,
    ensures
        be16_at(bytes, pos) == v,
{
    assert(((((v >> 8) as u8) as u16) << 8) | ((v as u8) as u16) == v) by (bit_vector);
}

/// Reading back the image of a 32-bit value yields the value.
proof fn lemma_enc32_at(bytes: Seq<u8>, pos: int, v: u32)
    requires
        0 <= pos,
        pos + 4 <= bytes.len(),
        bytes[pos] == (v >> 24) as u8,
        bytes[pos + 1] == (v >> 16) as u8,
        bytes[pos + 2] == (v >> 8) as u8,
        bytes[pos + 3] == v as u8,
    ensures
        be32_at(bytes, pos) == v,
{
    assert(((((v >> 24) as u8) as u32) << 24) | ((((v >> 16) as u8) as u32) << 16) | ((((v
        >> 8) as u8) as u32) << 8) | ((v as u8) as u32) == v) by (bit_vector);
}

/// Reading back the image of a 64-bit value yields the value.
proof fn lemma_enc64_at(bytes: Seq<u8>, pos: int, v: u64)
    requires
        0 <= pos,
        pos + 8 <= bytes.len(),
        bytes.subrange(pos, pos + 8) == enc64(v),
    ensures
        be64_at(bytes, pos) == v,
{
    let hi = (v >> 32) as u32;
    let lo = v as u32;
    assert(bytes[pos] == enc64(v)[0] && bytes[pos + 1] == enc64(v)[1] && bytes[pos + 2] == enc64(
        v,
    )[2] && bytes[pos + 3] == enc64(v)[3] && bytes[pos + 4] == enc64(v)[4] && bytes[pos + 5]
        == enc64(v)[5] && bytes[pos + 6] == enc64(v)[6] && bytes[pos + 7] == enc64(v)[7]);
    lemma_enc32_at(bytes, pos, hi);
    lemma_enc32_at(bytes, pos + 4, lo);
    assert(((hi as u64) << 32) | (lo as u64) == v) by (bit_vector)
        requires hi == (v >> 32) as u32 && lo == v as u32;
}

/// One serialized entry re-parses to itself: the record written at
/// `pos` stands in the entry-at relation there.
pub proof fn lemma_cp_entry_round_trip(bytes: Seq<u8>, pos: int, item: ConstantPoolItem)
    requires
        wf_cp_entry(item),
        0 <= pos,
        pos + cp_entry_size(item) <= bytes.len(),
        bytes.subrange(pos, pos + cp_entry_size(item)) == encode_cp_entry(item),
    ensures
        is_cp_entry_at(bytes, pos, item),
{
    let e = encode_cp_entry(item);
    let n = cp_entry_size(item);
    assert(forall|k: int| 0 <= k < n ==> bytes[pos + k] == #[trigger] e[k]) by {
        assert(forall|k: int|
            0 <= k < n ==> bytes.subrange(pos, pos + n)[k] == #[trigger] e[k]);
    }
    assert(bytes[pos + 0] == e[0]);
    assert(1 < n ==> bytes[pos + 1] == e[1]);
    assert(2 < n ==> bytes[pos + 2] == e[2]);
    assert(3 < n ==> bytes[pos + 3] == e[3]);
    assert(4 < n ==> bytes[pos + 4] == e[4]);
    assert(5 < n ==> bytes[pos + 5] == e[5]);
    assert(6 < n ==> bytes[pos + 6] == e[6]);
    assert(7 < n ==> bytes[pos + 7] == e[7]);
    assert(8 < n ==> bytes[pos + 8] == e[8]);
    match item {
        ConstantPoolItem::Utf8(u) => {
            lemma_enc16_at(bytes, pos + 1, u.length);
            assert forall|j: int| 0 <= j < u.length implies bytes[pos + 3 + j] == u.bytes@[j] by {
                assert(bytes[pos + (3 + j)] == e[3 + j]);
                assert(e[3 + j] == u.bytes@[j]);
            }
            assert(bytes.subrange(pos + 3, pos + 3 + u.length) =~= u.bytes@);
        },
        ConstantPoolItem::Integer(v) => {
            lemma_enc32_at(bytes, pos + 1, v.value as u32);
            let x = v.value;
            assert(((x as u32) as i32) == x) by (bit_vector);
        },
        ConstantPoolItem::Float(v) => {
            lemma_enc32_at(bytes, pos + 1, v.bits);
        },
        ConstantPoolItem::Long(v) => {
            assert(bytes.subrange(pos + 1, pos + 9) =~= enc64(v.value as u64));
            lemma_enc64_at(bytes, pos + 1, v.value as u64);
            let x = v.value;
            assert(((x as u64) as i64) == x) by (bit_vector);
        },
        ConstantPoolItem::Double(v) => {
            assert(bytes.subrange(pos + 1, pos + 9) =~= enc64(v.bits));
            lemma_enc64_at(bytes, pos + 1, v.bits);
        },
        ConstantPoolItem::Class(v) => {
            lemma_enc16_at(bytes, pos + 1, v.index);
        },
        ConstantPoolItem::String(v) => {
            lemma_enc16_at(bytes, pos + 1, v.index);
        },
        ConstantPoolItem::FieldRef(v) => {
            lemma_enc16_at(bytes, pos + 1, v.class_index);
            lemma_enc16_at(bytes, pos + 3, v.name_and_type_index);
        },
        ConstantPoolItem::MethodRef(v) => {
            lemma_enc16_at(bytes, pos + 1, v.class_index);
            lemma_enc16_at(bytes, pos + 3, v.name_and_type_index);
        },
        ConstantPoolItem::InterfaceMethodRef(v) => {
            lemma_enc16_at(bytes, pos + 1, v.class_index);
            lemma_enc16_at(bytes, pos + 3, v.name_and_type_index);
        },
        ConstantPoolItem::NameAndType(v) => {
            lemma_enc16_at(bytes, pos + 1, v.name_index);
            lemma_enc16_at(bytes, pos + 3, v.type_index);
        },
    }
}

/// A serialized entry's byte length is its declared record size.
proof fn lemma_encode_cp_entry_len(item: ConstantPoolItem)
    requires
        wf_cp_entry(item),
    ensures
        encode_cp_entry(item).len() == cp_entry_size(item),
{
    match item {
        ConstantPoolItem::Utf8(u) => {
            assert((seq![1u8] + enc16(u.length) + u.bytes@).len() == 3 + u.bytes@.len());
        },
        ConstantPoolItem::Integer(v) => {
            assert((seq![3u8] + enc32(v.value as u32)).len() == 5);
        },
        ConstantPoolItem::Float(v) => {
            assert((seq![4u8] + enc32(v.bits)).len() == 5);
        },
        ConstantPoolItem::Long(v) => {
            assert((seq![5u8] + enc64(v.value as u64)).len() == 9);
        },
        ConstantPoolItem::Double(v) => {
            assert((seq![6u8] + enc64(v.bits)).len() == 9);
        },
        ConstantPoolItem::Class(v) => {
            assert((seq![7u8] + enc16(v.index)).len() == 3);
        },
        ConstantPoolItem::String(v) => {
            assert((seq![8u8] + enc16(v.index)).len() == 3);
        },
        ConstantPoolItem::FieldRef(v) => {
            assert((seq![9u8] + enc16(v.class_index) + enc16(v.name_and_type_index)).len() == 5);
        },
        ConstantPoolItem::MethodRef(v) => {
            assert((seq![10u8] + enc16(v.class_index) + enc16(v.name_and_type_index)).len() == 5);
        },
        ConstantPoolItem::InterfaceMethodRef(v) => {
            assert((seq![11u8] + enc16(v.class_index) + enc16(v.name_and_type_index)).len() == 5);
        },
        ConstantPoolItem::NameAndType(v) => {
            assert((seq![12u8] + enc16(v.name_index) + enc16(v.type_index)).len() == 5);
        },
    }
}

/// Serialized well-formed entries take exactly their declared record
/// sizes of space.
proof fn lemma_cp_items_size_nonneg(items: Seq<ConstantPoolItem>)
    requires
        forall|i: int| 0 <= i < items.len() ==> wf_cp_entry(#[trigger] items[i]),
    ensures
        cp_items_size(items) >= 0,
        encode_cp_items(items).len() == cp_items_size(items),
    decreases items.len(),
{
    if items.len() == 0 {
    } else {
        assert(forall|i: int|
            0 <= i < items.drop_first().len() ==> wf_cp_entry(
                #[trigger] items.drop_first()[i],
            )) by {
            assert(forall|i: int|
                0 <= i < items.drop_first().len() ==> items.drop_first()[i] == items[i + 1]);
        }
        lemma_cp_items_size_nonneg(items.drop_first());
        lemma_encode_cp_entry_len(items[0]);
    }
}

/// Serialized entry runs re-parse to themselves: the records written
/// from `pos` fill the logical indices `idx` up to `count` with the
/// original entries.
pub proof fn lemma_cp_items_round_trip(
    bytes: Seq<u8>,
    pos: int,
    idx: int,
    count: int,
    items: Seq<ConstantPoolItem>,
)
    requires
        forall|i: int| 0 <= i < items.len() ==> wf_cp_entry(#[trigger] items[i]),
        0 <= pos,
        pos + cp_items_size(items) <= bytes.len(),
        bytes.subrange(pos, pos + cp_items_size(items)) == encode_cp_items(items),
        idx + cp_items_span(items) == count,
    ensures
        are_cp_items_at(bytes, pos, idx, count, items),
    decreases items.len(),
{
    if items.len() == 0 {
    } else {
        let first = items[0];
        let rest = items.drop_first();
        let n0 = cp_entry_size(first);
        lemma_cp_items_size_nonneg(rest);
        lemma_cp_items_size_nonneg(items);
        assert(encode_cp_entry(first).len() == n0) by {
            reveal_with_fuel(cp_items_size, 2);
            reveal_with_fuel(encode_cp_items, 2);
            assert(seq![first].drop_first() =~= Seq::<ConstantPoolItem>::empty());
            assert(encode_cp_items(seq![first]) =~= encode_cp_entry(first));
            assert(cp_items_size(seq![first]) == cp_entry_size(first));
        }
        assert(bytes.subrange(pos, pos + n0) =~= encode_cp_entry(first));
        lemma_cp_entry_round_trip(bytes, pos, first);
        assert forall|j: int| 0 <= j < cp_items_size(rest) implies bytes[pos + n0 + j]
            == encode_cp_items(rest)[j] by {
            assert(bytes.subrange(pos, pos + cp_items_size(items))[n0 + j] == encode_cp_items(
                items,
            )[n0 + j]);
            assert(encode_cp_items(items)[n0 + j] == encode_cp_items(rest)[j]);
        }
        assert(bytes.subrange(pos + n0, pos + n0 + cp_items_size(rest)) =~= encode_cp_items(rest));
        lemma_cp_items_round_trip(
            bytes,
            pos + n0,
            idx + (if is_wide_entry(first) { 2int } else { 1int }),
            count,
            rest,
        );
    }
}

/// The round trip of the constant pool: serializing the declared slot
/// count and the entry records, then re-parsing, yields the original
/// entries at the original logical indices. The count must be
/// consistent with the entries under the double-slot rule: one plus
/// one slot per entry plus one more per long or double.
pub proof fn lemma_constant_pool_round_trip(count: u16, items: Seq<ConstantPoolItem>)
    requires
        forall|i: int| 0 <= i < items.len() ==> wf_cp_entry(#[trigger] items[i]),
        1 + cp_items_span(items) == count,
    ensures
        ({
            let bytes = enc16(count) + encode_cp_items(items);
            &&& be16_at(bytes, 0) == count
            &&& are_cp_items_at(bytes, 2, 1, count as int, items)
        }),
{
    let bytes = enc16(count) + encode_cp_items(items);
    lemma_cp_items_size_nonneg(items);
    lemma_enc16_at(bytes, 0, count);
    assert(bytes.subrange(2, 2 + cp_items_size(items)) =~= encode_cp_items(items));
    lemma_cp_items_round_trip(bytes, 2, 1, count as int, items);
}

/// True when the bytes at `pos` hold a complete constant pool entry
/// record: a tag of JVMS Table 4.4-B whose payload fits; on such
/// input the entry reader cannot fail.
pub open spec fn cp_entry_fits(bytes: Seq<u8>, pos: int) -> bool {
    &&& 0 <= pos < bytes.len()
    &&& {
        let tag = bytes[pos];
        if tag == 1 {
            pos + 3 <= bytes.len() && pos + 3 + be16_at(bytes, pos + 1) <= bytes.len()
        } else if tag == 3 || tag == 4 {
            pos + 5 <= bytes.len()
        } else if tag == 5 || tag == 6 {
            pos + 9 <= bytes.len()
        } else if tag == 7 || tag == 8 {
            pos + 3 <= bytes.len()
        } else if tag == 9 || tag == 10 || tag == 11 || tag == 12 {
            pos + 5 <= bytes.len()
        } else {
            false
        }
    }
}

/// An entry standing at a position fits there, and any entry
/// standing at the same position has the same record size and slot
/// width: the tag byte determines both.
proof fn lemma_cp_entry_at_props(bytes: Seq<u8>, pos: int, item: ConstantPoolItem)
    requires
        0 <= pos,
        is_cp_entry_at(bytes, pos, item),
    ensures
        cp_entry_fits(bytes, pos),
        forall|other: ConstantPoolItem|
            is_cp_entry_at(bytes, pos, other) ==> cp_entry_size(other) == cp_entry_size(item)
                && (is_wide_entry(other) <==> is_wide_entry(item)),
{
    match item {
        ConstantPoolItem::Utf8(u) => {
            assert(bytes[pos] == 1 && pos + 3 + u.length <= bytes.len() && u.length == be16_at(
                bytes,
                pos + 1,
            ));
            assert(cp_entry_fits(bytes, pos));
        },
        _ => {
            assert(cp_entry_fits(bytes, pos));
        },
    }
    assert forall|other: ConstantPoolItem|
        is_cp_entry_at(bytes, pos, other) implies cp_entry_size(other) == cp_entry_size(item)
        && (is_wide_entry(other) <==> is_wide_entry(item)) by {
        assert(bytes[pos] == bytes[pos]);
    }
}

/// Unfolding one step of a run of parsed entries: the first entry
/// stands at the front, the logical index stays within the declared
/// count, and the rest of the run follows it.
proof fn lemma_cp_items_at_step(
    bytes: Seq<u8>,
    pos: int,
    idx: int,
    count: int,
    items: Seq<ConstantPoolItem>,
)
    requires
        are_cp_items_at(bytes, pos, idx, count, items),
        items.len() > 0,
    ensures
        is_cp_entry_at(bytes, pos, items[0]),
        idx < count,
        idx + (if is_wide_entry(items[0]) {
            2int
        } else {
            1int
        }) <= count,
        are_cp_items_at(
            bytes,
            pos + cp_entry_size(items[0]),
            idx + (if is_wide_entry(items[0]) {
                2int
            } else {
                1int
            }),
            count,
            items.drop_first(),
        ),
{
    reveal_with_fuel(are_cp_items_at, 3);
    if items.drop_first().len() == 0 {
    } else {
    }
}

impl ConstantPoolItem {
    /// Reads one constant pool entry record, dispatching on its tag
    /// byte (JVMS Table 4.4-B); tags outside the table fail.
    pub fn read(r: &mut ByteReader) -> (res: Result<ConstantPoolItem, ParseError>)
        requires
            old(r).pos <= old(r).bytes@.len(),
        ensures
            cp_entry_fits(old(r).bytes@, old(r).pos as int) ==> res is Ok,
            final(r).bytes@ == old(r).bytes@,
            final(r).pos <= final(r).bytes@.len(),
            match res {
                Ok(item) => {
                    &&& is_cp_entry_at(old(r).bytes@, old(r).pos as int, item)
                    &&& final(r).pos == old(r).pos + cp_entry_size(item)
                },
                Err(e) => match e {
                    ParseError::Truncated => true,
                    ParseError::BadConstantPoolTag(t) => {
                        &&& old(r).pos < old(r).bytes@.len()
                        &&& t == old(r).bytes@[old(r).pos as int]
                        &&& (t == 0 || t == 2 || t > 12)
                    },
                    _ => false,
                },
            },
    {
        let tag = r.read_u8()?;
        match tag {
            1 => {
                let length = r.read_u16()?;
                let bytes = r.read_bytes(length as usize)?;
                Ok(ConstantPoolItem::Utf8(Utf8 { length, bytes }))
            },
            3 => {
                let value = r.read_u32()?;
                Ok(ConstantPoolItem::Integer(Integer {
                    value: #[verifier::truncate] (value as i32),
                }))
            },
            4 => {
                let bits = r.read_u32()?;
                Ok(ConstantPoolItem::Float(Float { bits }))
            },
            5 => {
                let value = r.read_u64()?;
                Ok(ConstantPoolItem::Long(Long { value: #[verifier::truncate] (value as i64) }))
            },
            6 => {
                let bits = r.read_u64()?;
                Ok(ConstantPoolItem::Double(Double { bits }))
            },
            7 => {
                let index = r.read_u16()?;
                Ok(ConstantPoolItem::Class(Class { index }))
            },
            8 => {
                let index = r.read_u16()?;
                Ok(ConstantPoolItem::String(StringInfo { index }))
            },
            9 => {
                let class_index = r.read_u16()?;
                let name_and_type_index = r.read_u16()?;
                Ok(ConstantPoolItem::FieldRef(FieldRef { class_index, name_and_type_index }))
            },
            10 => {
                let class_index = r.read_u16()?;
                let name_and_type_index = r.read_u16()?;
                Ok(ConstantPoolItem::MethodRef(MethodRef { class_index, name_and_type_index }))
            },
            11 => {
                let class_index = r.read_u16()?;
                let name_and_type_index = r.read_u16()?;
                Ok(
                    ConstantPoolItem::InterfaceMethodRef(
                        InterfaceMethodRef { class_index, name_and_type_index },
                    ),
                )
            },
            12 => {
                let name_index = r.read_u16()?;
                let type_index = r.read_u16()?;
                Ok(ConstantPoolItem::NameAndType(NameAndType { name_index, type_index }))
            },
            _ => Err(ParseError::BadConstantPoolTag(tag)),
        }
    }
}

/// Two entries standing at the same position agree: the bytes pin
/// every field, a Utf8 entry's contents up to its vector's view.
pub open spec fn cp_item_similar(x: ConstantPoolItem, y: ConstantPoolItem) -> bool {
    match (x, y) {
        (ConstantPoolItem::Utf8(a), ConstantPoolItem::Utf8(b)) => a.length == b.length
            && a.bytes@ == b.bytes@,
        _ => x == y,
    }
}

/// Two entry runs agree entrywise.
pub open spec fn cp_items_similar(a: Seq<ConstantPoolItem>, b: Seq<ConstantPoolItem>) -> bool {
    &&& a.len() == b.len()
    &&& forall|k: int| 0 <= k < a.len() ==> cp_item_similar(#[trigger] a[k], #[trigger] b[k])
}

/// Two pool slots agree: both absent, or holding agreeing entries.
pub open spec fn pool_slot_similar(
    x: Option<ConstantPoolItem>,
    y: Option<ConstantPoolItem>,
) -> bool {
    match (x, y) {
        (None, None) => true,
        (Some(u), Some(v)) => cp_item_similar(u, v),
        _ => false,
    }
}

/// Entries standing at one position agree.
proof fn lemma_cp_entry_at_functional(
    bytes: Seq<u8>,
    pos: int,
    x: ConstantPoolItem,
    y: ConstantPoolItem,
)
    requires
        0 <= pos,
        is_cp_entry_at(bytes, pos, x),
        is_cp_entry_at(bytes, pos, y),
    ensures
        cp_item_similar(x, y),
{
}

/// Parsing is functional: two entry runs at one position with one
/// declared count agree entrywise and span the same bytes.
proof fn lemma_cp_run_functional(
    bytes: Seq<u8>,
    pos: int,
    idx: int,
    count: int,
    a: Seq<ConstantPoolItem>,
    b: Seq<ConstantPoolItem>,
)
    requires
        0 <= pos,
        are_cp_items_at(bytes, pos, idx, count, a),
        are_cp_items_at(bytes, pos, idx, count, b),
    ensures
        cp_items_similar(a, b),
        cp_items_size(a) == cp_items_size(b),
    decreases a.len(),
{
    if a.len() == 0 {
        if b.len() > 0 {
            lemma_cp_items_at_step(bytes, pos, idx, count, b);
        }
        assert(b.len() == 0);
    } else {
        if b.len() == 0 {
            lemma_cp_items_at_step(bytes, pos, idx, count, a);
            assert(false);
        }
        lemma_cp_items_at_step(bytes, pos, idx, count, a);
        lemma_cp_items_at_step(bytes, pos, idx, count, b);
        lemma_cp_entry_at_functional(bytes, pos, a[0], b[0]);
        lemma_cp_entry_at_props(bytes, pos, a[0]);
        lemma_cp_run_functional(
            bytes,
            pos + cp_entry_size(a[0]),
            idx + (if is_wide_entry(a[0]) {
                2int
            } else {
                1int
            }),
            count,
            a.drop_first(),
            b.drop_first(),
        );
        assert forall|k: int| 0 <= k < a.len() implies cp_item_similar(
            #[trigger] a[k],
            #[trigger] b[k],
        ) by {
            if k > 0 {
                assert(a.drop_first()[k - 1] == a[k]);
                assert(b.drop_first()[k - 1] == b[k]);
                assert(cp_item_similar(a.drop_first()[k - 1], b.drop_first()[k - 1]));
            }
        }
    }
}

/// Agreeing entry runs canonicalize to agreeing pools, slot by slot.
proof fn lemma_pool_cells_similar(a: Seq<ConstantPoolItem>, b: Seq<ConstantPoolItem>)
    requires
        cp_items_similar(a, b),
    ensures
        pool_cells(a).len() == pool_cells(b).len(),
        forall|i: int|
            0 <= i < pool_cells(a).len() ==> pool_slot_similar(
                #[trigger] pool_cells(a)[i],
                #[trigger] pool_cells(b)[i],
            ),
    decreases a.len(),
{
    if a.len() == 0 {
    } else {
        assert(cp_item_similar(a[0], b[0]));
        assert(is_wide_entry(a[0]) <==> is_wide_entry(b[0]));
        assert forall|k: int|
            0 <= k < a.drop_first().len() implies cp_item_similar(
            #[trigger] a.drop_first()[k],
            #[trigger] b.drop_first()[k],
        ) by {
            assert(a.drop_first()[k] == a[k + 1]);
            assert(b.drop_first()[k] == b[k + 1]);
            assert(cp_item_similar(a[k + 1], b[k + 1]));
        }
        lemma_pool_cells_similar(a.drop_first(), b.drop_first());
        let ca: Seq<Option<ConstantPoolItem>> = if is_wide_entry(a[0]) {
            seq![Some(a[0]), None]
        } else {
            seq![Some(a[0])]
        };
        let cb: Seq<Option<ConstantPoolItem>> = if is_wide_entry(b[0]) {
            seq![Some(b[0]), None]
        } else {
            seq![Some(b[0])]
        };
        assert forall|i: int|
            0 <= i < pool_cells(a).len() implies pool_slot_similar(
            #[trigger] pool_cells(a)[i],
            #[trigger] pool_cells(b)[i],
        ) by {
            if i < ca.len() {
                assert(pool_cells(a)[i] == ca[i]);
                assert(pool_cells(b)[i] == cb[i]);
            } else {
                assert(pool_cells(a)[i] == pool_cells(a.drop_first())[i - ca.len()]);
                assert(pool_cells(b)[i] == pool_cells(b.drop_first())[i - ca.len()]);
            }
        }
    }
}

/// Agreeing entry runs canonicalize to agreeing pools.
pub proof fn lemma_canonical_pool_functional(
    bytes: Seq<u8>,
    pos: int,
    idx: int,
    count: int,
    a: Seq<ConstantPoolItem>,
    b: Seq<ConstantPoolItem>,
)
    requires
        0 <= pos,
        are_cp_items_at(bytes, pos, idx, count, a),
        are_cp_items_at(bytes, pos, idx, count, b),
    ensures
        cp_items_size(a) == cp_items_size(b),
        canonical_pool(a).len() == canonical_pool(b).len(),
        forall|i: int|
            0 <= i < canonical_pool(a).len() ==> pool_slot_similar(
                #[trigger] canonical_pool(a)[i],
                #[trigger] canonical_pool(b)[i],
            ),
{
    lemma_cp_run_functional(bytes, pos, idx, count, a, b);
    lemma_pool_cells_similar(a, b);
    assert forall|i: int|
        0 <= i < canonical_pool(a).len() implies pool_slot_similar(
        #[trigger] canonical_pool(a)[i],
        #[trigger] canonical_pool(b)[i],
    ) by {
        if i == 0 {
        } else {
            assert(canonical_pool(a)[i] == pool_cells(a)[i - 1]);
            assert(canonical_pool(b)[i] == pool_cells(b)[i - 1]);
        }
    }
}

/// True when a complete run of entry records stands at `pos`: the
/// declared slot count, then records that fill the logical indices up
/// to it; on such input the pool reader cannot fail.
pub open spec fn cp_run_exists(bytes: Seq<u8>, pos: int) -> bool {
    &&& pos + 2 <= bytes.len()
    &&& exists|items: Seq<ConstantPoolItem>|
        #[trigger] are_cp_items_at(bytes, pos + 2, 1, be16_at(bytes, pos) as int, items)
}

impl RawConstantPool {
    /// Reads the declared slot count, then entry records until the
    /// logical index reaches it, a long or double advancing the index
    /// by two (JVMS 4.4.5). An entry that runs the index past the
    /// declared count fails with `DeclaredLengthOverflow`.
    #[verifier::rlimit(100)]
    #[verifier::spinoff_prover]
    pub fn read(r: &mut ByteReader) -> (res: Result<RawConstantPool, ParseError>)
        requires
            old(r).pos <= old(r).bytes@.len(),
        ensures
            cp_run_exists(old(r).bytes@, old(r).pos as int) ==> res is Ok,
            final(r).bytes@ == old(r).bytes@,
            final(r).pos <= final(r).bytes@.len(),
            res matches Err(e) ==> (e is Truncated || e is BadConstantPoolTag
                || e is DeclaredLengthOverflow),
            res matches Ok(raw) ==> {
                &&& old(r).pos + 2 <= old(r).bytes@.len()
                &&& raw.constant_pool_count == be16_at(old(r).bytes@, old(r).pos as int)
                &&& are_cp_items_at(
                    old(r).bytes@,
                    old(r).pos + 2,
                    1,
                    raw.constant_pool_count as int,
                    raw.constants@,
                )
                &&& final(r).pos == old(r).pos + 2 + cp_items_size(raw.constants@)
            },
    {
        let ghost ant = cp_run_exists(r.bytes@, r.pos as int);
        let constant_pool_count = r.read_u16()?;
        let ghost start = r.pos as int;
        let mut constants: Vec<ConstantPoolItem> = Vec::new();
        let mut index: u16 = 1;
        if constant_pool_count == 0 {
            proof {
                if ant {
                    let w = choose|items: Seq<ConstantPoolItem>|
                        are_cp_items_at(old(r).bytes@, start, 1, 0, items);
                    if w.len() == 0 {
                    } else {
                        lemma_cp_items_at_step(old(r).bytes@, start, 1, 0, w);
                    }
                }
            }
            return Err(ParseError::DeclaredLengthOverflow);
        }
        while index < constant_pool_count
            invariant
                1 <= index <= constant_pool_count,
                r.bytes@ == old(r).bytes@,
                r.pos <= r.bytes@.len(),
                are_cp_items_at(r.bytes@, start, 1, index as int, constants@),
                r.pos == start + cp_items_size(constants@),
                ant == cp_run_exists(old(r).bytes@, old(r).pos as int),
                ant ==> (exists|rest: Seq<ConstantPoolItem>|
                    #[trigger] are_cp_items_at(
                        r.bytes@,
                        r.pos as int,
                        index as int,
                        constant_pool_count as int,
                        rest,
                    )),
            decreases constant_pool_count - index,
        {
            proof {
                if ant {
                    let rest = choose|rest: Seq<ConstantPoolItem>|
                        are_cp_items_at(
                            r.bytes@,
                            r.pos as int,
                            index as int,
                            constant_pool_count as int,
                            rest,
                        );
                    assert(rest.len() > 0);
                    lemma_cp_items_at_step(
                        r.bytes@,
                        r.pos as int,
                        index as int,
                        constant_pool_count as int,
                        rest,
                    );
                    lemma_cp_entry_at_props(r.bytes@, r.pos as int, rest[0]);
                }
            }
            proof {
                if ant {
                    assert(cp_entry_fits(r.bytes@, r.pos as int));
                }
            }
            let ghost items_pre = constants@;
            let ghost pos_pre = r.pos as int;
            let item = match ConstantPoolItem::read(r) {
                Ok(item) => item,
                Err(e) => {
                    proof {
                        if ant {
                            assert(false);
                        }
                    }
                    return Err(e);
                },
            };
            let wide = matches!(item, ConstantPoolItem::Long(_) | ConstantPoolItem::Double(_));
            let step: u16 = if wide { 2 } else { 1 };
            proof {
                if ant {
                    let rest = choose|rest: Seq<ConstantPoolItem>|
                        are_cp_items_at(
                            r.bytes@,
                            pos_pre,
                            index as int,
                            constant_pool_count as int,
                            rest,
                        );
                    lemma_cp_items_at_step(
                        r.bytes@,
                        pos_pre,
                        index as int,
                        constant_pool_count as int,
                        rest,
                    );
                    lemma_cp_entry_at_props(r.bytes@, pos_pre, rest[0]);
                    assert(cp_entry_size(item) == cp_entry_size(rest[0]));
                    assert(is_wide_entry(item) <==> is_wide_entry(rest[0]));
                    assert(are_cp_items_at(
                        r.bytes@,
                        pos_pre + cp_entry_size(item),
                        index + (if is_wide_entry(item) {
                            2int
                        } else {
                            1int
                        }),
                        constant_pool_count as int,
                        rest.drop_first(),
                    ));
                }
            }
            if constant_pool_count - index < step {
                proof {
                    if ant {
                        assert(index + step <= constant_pool_count);
                        assert(false);
                    }
                }
                return Err(ParseError::DeclaredLengthOverflow);
            }
            let ghost gitem = item;
            constants.push(item);
            index = index + step;
            proof {
                lemma_cp_items_push(
                    r.bytes@,
                    start,
                    1,
                    index - step,
                    items_pre,
                    gitem,
                    index as int,
                );
                assert(constants@ =~= items_pre.push(gitem));
            }
        }
        Ok(RawConstantPool { constant_pool_count, constants })
    }
}

} // verus!
