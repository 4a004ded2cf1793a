use steele::class::access::{ClassAccessPropertyFlags, FieldAccessPropertyFlags};
use steele::class::class::Class;
use steele::class::constant_pool::{self, ConstantPool, ConstantPoolItem, LookupError, RawConstantPool};
use steele::class::reader::ParseError;

/// Assembles a small class file image: minor 0, major 61, a constant
/// pool whose first entries mirror a compiled class referencing
/// java/lang/Object, a long entry making slot 13 absent, and one
/// public static final int field with a ConstantValue attribute.
fn sample_class_bytes() -> Vec<u8> {
    let mut b: Vec<u8> = Vec::new();
    let push_u16 = |b: &mut Vec<u8>, v: u16| b.extend_from_slice(&v.to_be_bytes());
    let push_u32 = |b: &mut Vec<u8>, v: u32| b.extend_from_slice(&v.to_be_bytes());
    let push_utf8 = |b: &mut Vec<u8>, s: &[u8]| {
        b.push(1);
        b.extend_from_slice(&(s.len() as u16).to_be_bytes());
        b.extend_from_slice(s);
    };
    push_u32(&mut b, 0xCAFEBABE);
    push_u16(&mut b, 0); // minor_version
    push_u16(&mut b, 61); // major_version
    push_u16(&mut b, 23); // constant_pool_count: 21 entries, one a long
    // 1: MethodRef(2, 3)
    b.push(10);
    push_u16(&mut b, 2);
    push_u16(&mut b, 3);
    // 2: Class(4)
    b.push(7);
    push_u16(&mut b, 4);
    // 3: NameAndType(5, 6)
    b.push(12);
    push_u16(&mut b, 5);
    push_u16(&mut b, 6);
    // 4: Utf8 "java/lang/Object"
    push_utf8(&mut b, b"java/lang/Object");
    // 5: Utf8 "<init>"
    push_utf8(&mut b, b"<init>");
    // 6: Utf8 "()V"
    push_utf8(&mut b, b"()V");
    // 7: Class(8), this class
    b.push(7);
    push_u16(&mut b, 8);
    // 8: Utf8 "Sample"
    push_utf8(&mut b, b"Sample");
    // 9: Utf8 "ConstantValue"
    push_utf8(&mut b, b"ConstantValue");
    // 10: Integer(42)
    b.push(3);
    push_u32(&mut b, 42);
    // 11: Utf8 "SourceFile"
    push_utf8(&mut b, b"SourceFile");
    // 12: Long(7); slot 13 is deliberately absent
    b.push(5);
    push_u32(&mut b, 0);
    push_u32(&mut b, 7);
    // 14 through 20: filler Utf8 entries
    push_utf8(&mut b, b"f14");
    push_utf8(&mut b, b"f15");
    push_utf8(&mut b, b"f16");
    push_utf8(&mut b, b"f17");
    push_utf8(&mut b, b"f18");
    push_utf8(&mut b, b"f19");
    push_utf8(&mut b, b"Sample.java");
    // 21: Utf8 "STATIC_CONST_INT"
    push_utf8(&mut b, b"STATIC_CONST_INT");
    // 22: Utf8 "I"
    push_utf8(&mut b, b"I");
    // access_flags: public | super
    push_u16(&mut b, 0x0021);
    push_u16(&mut b, 7); // this_class
    push_u16(&mut b, 2); // super_class
    push_u16(&mut b, 0); // interfaces_count
    // one field: public static final STATIC_CONST_INT with ConstantValue
    push_u16(&mut b, 1);
    push_u16(&mut b, 0x0019); // public | static | final
    push_u16(&mut b, 21); // name_index
    push_u16(&mut b, 22); // descriptor_index
    push_u16(&mut b, 1); // attributes_count
    push_u16(&mut b, 9); // attribute name: ConstantValue
    push_u32(&mut b, 2); // attribute length
    push_u16(&mut b, 10); // constant_value_index
    // no methods, no class attributes
    push_u16(&mut b, 0);
    push_u16(&mut b, 0);
    b
}

fn get_class() -> Class {
    let bytes = sample_class_bytes();
    let clazz = Class::new(&bytes).expect("the sample class image should parse");
    println!("{:?}", clazz);
    clazz
}

#[test]
fn test_minor_version() {
    const MINOR_VERSION: u16 = 0;
    assert_eq!(get_class().minor_version, MINOR_VERSION);
}

#[test]
fn test_major_version() {
    const MAJOR_VERSION: u16 = 61;
    assert_eq!(get_class().major_version, MAJOR_VERSION);
}

#[test]
fn test_constant_pool() {
    let cases = vec![
        (
            1u16,
            ConstantPoolItem::MethodRef(constant_pool::MethodRef {
                class_index: 2,
                name_and_type_index: 3,
            }),
        ),
        (2u16, ConstantPoolItem::Class(constant_pool::Class { index: 4 })),
        (
            3u16,
            ConstantPoolItem::NameAndType(constant_pool::NameAndType {
                name_index: 5,
                type_index: 6,
            }),
        ),
        (
            4u16,
            ConstantPoolItem::Utf8(constant_pool::Utf8 {
                length: 16,
                bytes: b"java/lang/Object".to_vec(),
            }),
        ),
    ];

    let clazz = get_class();

    for (index, expected) in cases {
        assert_eq!(clazz.constant_pool.constants[index as usize], Some(expected));
    }
}

#[test]
fn test_access_flags() {
    let clazz = get_class();
    assert!(clazz.flags.contains(&ClassAccessPropertyFlags::Public));
    assert!(clazz.flags.contains(&ClassAccessPropertyFlags::Super));
}

#[test]
fn test_canonical_constant_pool() {
    let pool = get_class().constant_pool.constants;
    for (key, item) in pool.iter().enumerate() {
        match item {
            Some(ConstantPoolItem::Double(_d)) => {
                println!("[{}] Found a double", key);
            }
            Some(ConstantPoolItem::Long(_l)) => {
                println!("[{}] Found a long", key);
            }
            _ => {
                println!("[{}] Found something else", key);
            }
        }
    }
    assert!(pool[13].is_none());
}

#[test]
fn test_fields() {
    let clazz = get_class();
    let canonical_pool = get_class().constant_pool;
    let field_1 = &clazz.fields.fields[0];

    assert_eq!(field_1.name_index, 21);
    assert_eq!(field_1.descriptor_index, 22);
    assert_eq!(
        field_1.access_flags & FieldAccessPropertyFlags::Public.mask(),
        FieldAccessPropertyFlags::Public.mask()
    );
    assert_eq!(
        field_1.access_flags & FieldAccessPropertyFlags::Static.mask(),
        FieldAccessPropertyFlags::Static.mask()
    );
    assert_eq!(
        field_1.access_flags & FieldAccessPropertyFlags::Final.mask(),
        FieldAccessPropertyFlags::Final.mask()
    );
    assert_eq!(field_1.attributes_count, 1);

    assert_eq!(
        canonical_pool.constants[field_1.name_index as usize],
        Some(ConstantPoolItem::Utf8(constant_pool::Utf8 {
            length: b"STATIC_CONST_INT".len() as u16,
            bytes: b"STATIC_CONST_INT".to_vec(),
        }))
    );
    assert_eq!(
        canonical_pool.constants[field_1.descriptor_index as usize],
        Some(ConstantPoolItem::Utf8(constant_pool::Utf8 {
            length: 1u16,
            bytes: b"I".to_vec(),
        }))
    );
}

/// The class header: the magic bytes CA FE BA BE followed by minor 0
/// and major 61 report those versions, and any other magic number is
/// rejected with the bytes found.
#[test]
fn test_magic_number() {
    let clazz = get_class();
    assert_eq!(clazz.major_version, 61);
    assert_eq!(clazz.minor_version, 0);

    let mut bad = sample_class_bytes();
    bad[0] = 0xCA;
    bad[1] = 0xFE;
    bad[2] = 0xBA;
    bad[3] = 0xBF;
    assert!(matches!(Class::new(&bad), Err(ParseError::BadMagic(0xCAFEBABF))));
}

/// Canonicalizing the raw entries [Long(0), Utf8("A")] yields index 1
/// holding the long, index 2 absent, index 3 holding the string, and
/// a logical declared count of 4.
#[test]
fn test_double_slot_rule() {
    let raw = RawConstantPool {
        constant_pool_count: 4,
        constants: vec![
            ConstantPoolItem::Long(constant_pool::Long { value: 0 }),
            ConstantPoolItem::Utf8(constant_pool::Utf8 { length: 1, bytes: b"A".to_vec() }),
        ],
    };
    let pool = ConstantPool::from(raw);
    assert_eq!(pool.length, 4);
    assert_eq!(pool.constants.len(), 4);
    assert!(pool.constants[0].is_none());
    assert_eq!(
        pool.constants[1],
        Some(ConstantPoolItem::Long(constant_pool::Long { value: 0 }))
    );
    assert!(pool.constants[2].is_none());
    assert_eq!(
        pool.constants[3],
        Some(ConstantPoolItem::Utf8(constant_pool::Utf8 { length: 1, bytes: b"A".to_vec() }))
    );
}

/// The typed accessors report an absent index and a wrong entry kind
/// with the index or kind names involved.
#[test]
fn test_pool_accessors() {
    let raw = RawConstantPool {
        constant_pool_count: 3,
        constants: vec![
            ConstantPoolItem::Integer(constant_pool::Integer { value: 7 }),
            ConstantPoolItem::Class(constant_pool::Class { index: 1 }),
        ],
    };
    let pool = ConstantPool::from(raw);
    assert_eq!(pool.get_int(1), Ok(constant_pool::Integer { value: 7 }));
    assert_eq!(pool.get_class(2), Ok(constant_pool::Class { index: 1 }));
    match pool.get_int(9) {
        Err(LookupError::BadIndex(ie)) => assert_eq!(ie.index, 9),
        other => panic!("expected an index error, got {:?}", other),
    }
    match pool.get_utf8(1) {
        Err(LookupError::WrongType(te)) => {
            assert_eq!(te.wanted_type, "Utf8");
            assert_eq!(te.actual_type, "Integer");
        }
        other => panic!("expected a type error, got {:?}", other),
    }
}

/// A truncated stream and a bad entry tag are parse faults.
#[test]
fn test_parse_errors() {
    let bytes = sample_class_bytes();
    assert!(matches!(Class::new(&bytes[..7]), Err(ParseError::Truncated)));
    let mut bad_tag = sample_class_bytes();
    bad_tag[10] = 2; // the first entry's tag byte
    assert!(matches!(Class::new(&bad_tag), Err(ParseError::BadConstantPoolTag(2))));
}

/// A well-formed image with no fields, methods or class attributes
/// always parses: the decoder owes success on it.
#[test]
fn test_minimal_class_parses() {
    let mut b: Vec<u8> = Vec::new();
    b.extend_from_slice(&0xCAFEBABEu32.to_be_bytes());
    b.extend_from_slice(&0u16.to_be_bytes()); // minor_version
    b.extend_from_slice(&61u16.to_be_bytes()); // major_version
    b.extend_from_slice(&5u16.to_be_bytes()); // constant_pool_count
    // 1: Class(2), this class
    b.push(7);
    b.extend_from_slice(&2u16.to_be_bytes());
    // 2: Utf8 "A"
    b.push(1);
    b.extend_from_slice(&1u16.to_be_bytes());
    b.push(b'A');
    // 3: Class(4), super class
    b.push(7);
    b.extend_from_slice(&4u16.to_be_bytes());
    // 4: Utf8 "B"
    b.push(1);
    b.extend_from_slice(&1u16.to_be_bytes());
    b.push(b'B');
    b.extend_from_slice(&0x0001u16.to_be_bytes()); // access_flags: public
    b.extend_from_slice(&1u16.to_be_bytes()); // this_class
    b.extend_from_slice(&3u16.to_be_bytes()); // super_class
    b.extend_from_slice(&0u16.to_be_bytes()); // interfaces_count
    b.extend_from_slice(&0u16.to_be_bytes()); // fields_count
    b.extend_from_slice(&0u16.to_be_bytes()); // methods_count
    b.extend_from_slice(&0u16.to_be_bytes()); // attributes_count
    let clazz = Class::new(&b).expect("an attribute-free class image must parse");
    assert_eq!(clazz.this_class, constant_pool::Class { index: 2 });
    assert_eq!(clazz.super_class, constant_pool::Class { index: 4 });
    assert_eq!(clazz.fields.fields_count, 0);
    assert_eq!(clazz.methods.method_count, 0);
    assert_eq!(clazz.attributes.attribute_count, 0);
}

/// The resolved this and super classes point at the right names.
#[test]
fn test_this_and_super() {
    let clazz = get_class();
    assert_eq!(clazz.this_class, constant_pool::Class { index: 8 });
    assert_eq!(clazz.super_class, constant_pool::Class { index: 4 });
}
