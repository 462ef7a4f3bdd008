use jadis::access_flags::{ClassAccessFlags, Flags, MethodAccessFlags};
use jadis::attribute::{AttributeData, AttributeInfo, AttributeType};
use jadis::byte_reader::ByteReader;
use jadis::class_file::ClassFile;
use jadis::constant_pool::{ConstantPool, ConstantPoolInfo, MethodHandleType, Tag};
use jadis::error::{DecodeError, ErrorKind};
use jadis::mutf8::{decode_modified_utf8, is_valid_modified_utf8};

fn utf8(s: &str) -> Vec<u8> {
    let mut v = vec![1u8];
    v.extend_from_slice(&(s.len() as u16).to_be_bytes());
    v.extend_from_slice(s.as_bytes());
    v
}

fn pool_bytes(entries: &[Vec<u8>], count: u16) -> Vec<u8> {
    let mut v = count.to_be_bytes().to_vec();
    for e in entries {
        v.extend_from_slice(e);
    }
    v
}

fn read_pool(bytes: Vec<u8>) -> ConstantPool {
    let mut reader = ByteReader::from_bytes(bytes);
    ConstantPool::read(&mut reader).unwrap()
}

/// A pool whose index 1 is "Code", 2 is "LineNumberTable", 3 is "Synthetic",
/// 4 is "ConstantValue", 5 is "Frobnicate" and 6 is a class named by 1.
fn sample_pool() -> ConstantPool {
    read_pool(pool_bytes(
        &[
            utf8("Code"),
            utf8("LineNumberTable"),
            utf8("Synthetic"),
            utf8("ConstantValue"),
            utf8("Frobnicate"),
            vec![7, 0, 1],
        ],
        7,
    ))
}

fn minimal_class(super_index: u16) -> Vec<u8> {
    let mut v = vec![0xCA, 0xFE, 0xBA, 0xBE, 0x00, 0x00, 0x00, 0x3D];
    v.extend(pool_bytes(&[utf8("A"), vec![7, 0, 1]], 3));
    v.extend_from_slice(&[0x00, 0x21]);
    v.extend_from_slice(&[0x00, 0x02]);
    v.extend_from_slice(&super_index.to_be_bytes());
    v.extend_from_slice(&[0, 0, 0, 0, 0, 0, 0, 0]);
    v
}

#[test]
fn magic_only_failure() {
    let r = ClassFile::from_bytes(vec![0, 0, 0, 0, 0, 0, 0, 0]);
    assert_eq!(r.unwrap_err(), DecodeError { kind: ErrorKind::BadMagic, offset: 0 });
}

#[test]
fn minimal_header() {
    let bytes = vec![0xCA, 0xFE, 0xBA, 0xBE, 0x00, 0x03, 0x00, 0x3D, 0x00, 0x01, 0x00, 0x21];
    let mut reader = ByteReader::from_bytes(bytes.clone());
    assert_eq!(reader.read_u32().unwrap(), 0xCAFEBABE);
    assert_eq!(reader.read_u16().unwrap(), 3);
    assert_eq!(reader.read_u16().unwrap(), 61);
    let pool = ConstantPool::read(&mut reader).unwrap();
    assert_eq!(pool.len(), 0);
    let mask = reader.read_u16().unwrap();
    assert_eq!(mask, 0x0021);
    assert_eq!(
        ClassAccessFlags::from_u16(mask),
        vec![ClassAccessFlags::AccPublic, ClassAccessFlags::AccSuper]
    );
    let r = ClassFile::from_bytes(bytes);
    assert_eq!(r.unwrap_err(), DecodeError { kind: ErrorKind::UnexpectedEof, offset: 12 });
}

#[test]
fn class_flags_mask_4420() {
    assert_eq!(
        ClassAccessFlags::from_u16(0x4420),
        vec![ClassAccessFlags::AccSuper, ClassAccessFlags::AccAbstract, ClassAccessFlags::AccEnum]
    );
}

#[test]
fn method_flags_mask_1533() {
    assert_eq!(
        MethodAccessFlags::from_u16(0x1533),
        vec![
            MethodAccessFlags::AccPublic,
            MethodAccessFlags::AccPrivate,
            MethodAccessFlags::AccFinal,
            MethodAccessFlags::AccSynchronized,
            MethodAccessFlags::AccNative,
            MethodAccessFlags::AccAbstract,
            MethodAccessFlags::AccSynthetic,
        ]
    );
}

#[test]
fn flags_single_bit_and_zero_mask() {
    assert_eq!(ClassAccessFlags::from_u16(0x0000), vec![]);
    // unrecognised bits are skipped
    assert_eq!(ClassAccessFlags::from_u16(0x0001 | 0x0002 | 0x0100), vec![ClassAccessFlags::AccPublic]);
}

#[test]
fn flags_reencode() {
    let flags = MethodAccessFlags::from_u16(0xF533);
    let bits: u16 = 0x1533;
    assert_eq!(MethodAccessFlags::from_u16(bits), flags);
}

#[test]
fn pool_long_handling() {
    let mut long = vec![5u8];
    long.extend_from_slice(&[0x00, 0x00, 0x00, 0x01, 0x00, 0x00, 0x00, 0x02]);
    let bytes = pool_bytes(&[long, vec![1, 0, 0]], 4);
    let total = bytes.len();
    let mut reader = ByteReader::from_bytes(bytes);
    let pool = ConstantPool::read(&mut reader).unwrap();
    assert_eq!(reader.position(), total);
    let keys: Vec<u16> = pool.entries().keys().copied().collect();
    assert_eq!(keys, vec![1, 3]);
    assert!(pool.get(2).is_none());
    match pool.get(1) {
        Some(ConstantPoolInfo::Long(l)) => assert_eq!(l.value, 0x1_0000_0002),
        other => panic!("unexpected {:?}", other),
    }
    let s = pool.as_utf8(3).unwrap();
    assert_eq!(s.length, 0);
    assert_eq!(s.string, "");
    assert_eq!(pool.get(3).unwrap().tag(), Tag::ConstantUtf8);
}

#[test]
fn empty_pool() {
    let pool = read_pool(vec![0x00, 0x01, 0xAB]);
    assert_eq!(pool.len(), 0);
    let mut reader = ByteReader::from_bytes(vec![0x00, 0x01, 0x00, 0x21]);
    ConstantPool::read(&mut reader).unwrap();
    assert_eq!(reader.read_u16().unwrap(), 0x21);
}

#[test]
fn pool_values() {
    let pool = read_pool(pool_bytes(
        &[
            vec![3, 0xFF, 0xFF, 0xFF, 0xFE],
            vec![4, 0x3F, 0x80, 0x00, 0x00],
            vec![15, 6, 0x00, 0x01],
            vec![12, 0x00, 0x01, 0x00, 0x02],
        ],
        5,
    ));
    match pool.get(1) {
        Some(ConstantPoolInfo::Integer(i)) => assert_eq!(i.value, -2),
        other => panic!("unexpected {:?}", other),
    }
    match pool.get(2) {
        Some(ConstantPoolInfo::Float(f)) => assert_eq!(f.bits, 0x3F80_0000),
        other => panic!("unexpected {:?}", other),
    }
    match pool.get(3) {
        Some(ConstantPoolInfo::MethodHandle(h)) => {
            assert_eq!(h.reference_kind, MethodHandleType::RefInvokeStatic);
            assert_eq!(h.reference_index, 1);
            assert_eq!(h.constant_pool_index, 3);
        },
        other => panic!("unexpected {:?}", other),
    }
    let nt = pool.get(4).unwrap().try_cast_into_name_and_type().unwrap();
    assert_eq!((nt.name_index, nt.descriptor_index), (1, 2));
    assert!(pool.get(4).unwrap().try_cast_into_class().is_none());
}

#[test]
fn pool_malformed_tag() {
    let mut reader = ByteReader::from_bytes(vec![0x00, 0x02, 2, 0, 0]);
    let r = ConstantPool::read(&mut reader);
    assert_eq!(r.unwrap_err(), DecodeError { kind: ErrorKind::MalformedTag, offset: 2 });
    let mut reader = ByteReader::from_bytes(vec![0x00, 0x02, 15, 10, 0, 1]);
    let r = ConstantPool::read(&mut reader);
    assert_eq!(r.unwrap_err(), DecodeError { kind: ErrorKind::MalformedTag, offset: 3 });
}

#[test]
fn code_attribute_with_line_numbers() {
    let pool = sample_pool();
    let mut bytes = vec![0x00, 0x01, 0x00, 0x00, 0x00, 25];
    bytes.extend_from_slice(&[0x00, 0x01, 0x00, 0x01, 0x00, 0x00, 0x00, 0x01, 0xB1, 0x00, 0x00, 0x00, 0x01]);
    bytes.extend_from_slice(&[0x00, 0x02, 0x00, 0x00, 0x00, 0x06, 0x00, 0x01, 0x00, 0x00, 0x00, 0x2A]);
    let total = bytes.len();
    let mut reader = ByteReader::from_bytes(bytes);
    let a = AttributeInfo::new(&mut reader, &pool).unwrap();
    assert_eq!(reader.position(), total);
    assert_eq!(a.attribute_type, AttributeType::Code);
    match a.data {
        AttributeData::Code(code) => {
            assert_eq!(code.attribute_length, 25);
            assert_eq!(code.max_stack, 1);
            assert_eq!(code.max_locals, 1);
            assert_eq!(code.code, vec![0xB1]);
            assert!(code.exception_table.is_empty());
            assert_eq!(code.attributes.len(), 1);
            assert_eq!(code.attributes[0].attribute_type, AttributeType::LineNumberTable);
            match &code.attributes[0].data {
                AttributeData::LineNumberTable(t) => {
                    assert_eq!(t.line_number_table.len(), 1);
                    assert_eq!(t.line_number_table[0].start_pc, 0);
                    assert_eq!(t.line_number_table[0].line_number, 42);
                },
                other => panic!("unexpected {:?}", other),
            }
        },
        other => panic!("unexpected {:?}", other),
    }
}

#[test]
fn code_attribute_longer_than_declared() {
    let pool = sample_pool();
    // declared 24, but the payload takes 25 bytes
    let mut bytes = vec![0x00, 0x01, 0x00, 0x00, 0x00, 24];
    bytes.extend_from_slice(&[0x00, 0x01, 0x00, 0x01, 0x00, 0x00, 0x00, 0x01, 0xB1, 0x00, 0x00, 0x00, 0x01]);
    bytes.extend_from_slice(&[0x00, 0x02, 0x00, 0x00, 0x00, 0x06, 0x00, 0x01, 0x00, 0x00, 0x00, 0x2A, 0x00]);
    let mut reader = ByteReader::from_bytes(bytes);
    let r = AttributeInfo::new(&mut reader, &pool);
    assert_eq!(r.unwrap_err().kind, ErrorKind::LengthMismatch);
}

#[test]
fn empty_payload_attributes() {
    let pool = sample_pool();
    let mut reader = ByteReader::from_bytes(vec![0x00, 0x03, 0x00, 0x00, 0x00, 0x00]);
    let a = AttributeInfo::new(&mut reader, &pool).unwrap();
    assert_eq!(a.attribute_type, AttributeType::Synthetic);
    assert_eq!(reader.position(), 6);
    let mut reader = ByteReader::from_bytes(vec![0x00, 0x04, 0x00, 0x00, 0x00, 0x00, 0x00, 0x05]);
    let r = AttributeInfo::new(&mut reader, &pool);
    assert_eq!(r.unwrap_err(), DecodeError { kind: ErrorKind::LengthMismatch, offset: 6 });
}

#[test]
fn constant_value_attribute() {
    let pool = sample_pool();
    let mut reader = ByteReader::from_bytes(vec![0x00, 0x04, 0x00, 0x00, 0x00, 0x02, 0x00, 0x09]);
    let a = AttributeInfo::new(&mut reader, &pool).unwrap();
    match a.data {
        AttributeData::ConstantValue(c) => assert_eq!(c.constantvalue_index, 9),
        other => panic!("unexpected {:?}", other),
    }
    // a constant value that declares three bytes takes only two of them
    let mut reader = ByteReader::from_bytes(vec![0x00, 0x04, 0x00, 0x00, 0x00, 0x03, 0x00, 0x09, 0x00]);
    let r = AttributeInfo::new(&mut reader, &pool);
    assert_eq!(r.unwrap_err(), DecodeError { kind: ErrorKind::LengthMismatch, offset: 0 });
}

#[test]
fn attribute_name_errors() {
    let pool = sample_pool();
    let mut reader = ByteReader::from_bytes(vec![0x00, 0x06, 0x00, 0x00, 0x00, 0x00]);
    let r = AttributeInfo::new(&mut reader, &pool);
    assert_eq!(r.unwrap_err(), DecodeError { kind: ErrorKind::BadAttributeName, offset: 0 });
    let mut reader = ByteReader::from_bytes(vec![0x00, 0x09, 0x00, 0x00, 0x00, 0x00]);
    let r = AttributeInfo::new(&mut reader, &pool);
    assert_eq!(r.unwrap_err(), DecodeError { kind: ErrorKind::BadAttributeName, offset: 0 });
    let mut reader = ByteReader::from_bytes(vec![0x00, 0x05, 0x00, 0x00, 0x00, 0x00]);
    let r = AttributeInfo::new(&mut reader, &pool);
    assert_eq!(r.unwrap_err(), DecodeError { kind: ErrorKind::UnknownAttribute, offset: 0 });
}

#[test]
fn attribute_past_end_of_input() {
    let pool = sample_pool();
    let mut reader = ByteReader::from_bytes(vec![0x00, 0x04, 0x00, 0x00, 0x00, 0x02, 0x00]);
    let r = AttributeInfo::new(&mut reader, &pool);
    assert_eq!(r.unwrap_err(), DecodeError { kind: ErrorKind::UnexpectedEof, offset: 6 });
}

#[test]
fn minimal_class_file() {
    let c = ClassFile::from_bytes(minimal_class(0)).unwrap();
    assert_eq!(c.magic, 0xCAFEBABE);
    assert_eq!(c.major_version, 61);
    assert_eq!(c.access_flags, vec![ClassAccessFlags::AccPublic, ClassAccessFlags::AccSuper]);
    assert_eq!(c.this_class.constant_pool_index, 2);
    assert_eq!(c.this_class.name_index, 1);
    assert!(c.super_class.is_none());
    assert!(c.interfaces.is_empty() && c.fields.is_empty() && c.methods.is_empty());
    assert_eq!(c.constant_pool.len(), 2);
}

#[test]
fn super_class_resolution() {
    let c = ClassFile::from_bytes(minimal_class(2)).unwrap();
    assert_eq!(c.super_class.unwrap().constant_pool_index, 2);
    let r = ClassFile::from_bytes(minimal_class(7));
    assert_eq!(r.unwrap_err(), DecodeError { kind: ErrorKind::BadPoolRef, offset: 21 });
    let r = ClassFile::from_bytes(minimal_class(1));
    assert_eq!(r.unwrap_err(), DecodeError { kind: ErrorKind::BadPoolRef, offset: 21 });
}

#[test]
fn dangling_class_name() {
    let mut v = vec![0xCA, 0xFE, 0xBA, 0xBE, 0x00, 0x00, 0x00, 0x3D];
    v.extend(pool_bytes(&[vec![8, 0, 1], vec![7, 0, 1]], 3));
    v.extend_from_slice(&[0x00, 0x21, 0x00, 0x02, 0x00, 0x00, 0, 0, 0, 0, 0, 0, 0, 0]);
    let total = v.len();
    let r = ClassFile::from_bytes(v);
    assert_eq!(r.unwrap_err(), DecodeError { kind: ErrorKind::DanglingRef, offset: total });
}

#[test]
fn class_with_field_and_method() {
    let mut v = vec![0xCA, 0xFE, 0xBA, 0xBE, 0x00, 0x00, 0x00, 0x3D];
    v.extend(pool_bytes(&[utf8("A"), vec![7, 0, 1], utf8("x"), utf8("I"), utf8("Deprecated")], 6));
    v.extend_from_slice(&[0x00, 0x21, 0x00, 0x02, 0x00, 0x00, 0x00, 0x01, 0x00, 0x02]);
    // one field, private static, with a Deprecated attribute
    v.extend_from_slice(&[0x00, 0x01, 0x00, 0x0A, 0x00, 0x03, 0x00, 0x04, 0x00, 0x01, 0x00, 0x05, 0, 0, 0, 0]);
    // one method, public, no attributes
    v.extend_from_slice(&[0x00, 0x01, 0x00, 0x01, 0x00, 0x03, 0x00, 0x04, 0x00, 0x00]);
    v.extend_from_slice(&[0x00, 0x00]);
    let c = ClassFile::from_bytes(v.clone()).unwrap();
    assert_eq!(c.interfaces.len(), 1);
    assert_eq!(c.fields.len(), 1);
    assert_eq!(c.fields[0].name_index, 3);
    assert_eq!(c.fields[0].attributes[0].attribute_type, AttributeType::Deprecated);
    assert_eq!(c.methods[0].access_flags, vec![MethodAccessFlags::AccPublic]);
    let again = ClassFile::from_bytes(v).unwrap();
    assert_eq!(format!("{:?}", c), format!("{:?}", again));
}

#[test]
fn modified_utf8_decoding() {
    assert_eq!(decode_modified_utf8(b"abc"), "abc");
    assert_eq!(decode_modified_utf8(&[0xC0, 0x80]), "\u{0}");
    assert_eq!(decode_modified_utf8(&[0xC3, 0xA9]), "\u{e9}");
    assert_eq!(decode_modified_utf8(&[0xE2, 0x82, 0xAC]), "\u{20ac}");
    assert_eq!(decode_modified_utf8(&[0xED, 0xA0, 0xBD, 0xED, 0xB8, 0x80]), "\u{1F600}");
    assert_eq!(decode_modified_utf8(&[0xED, 0xA0, 0xBD, 0x41]), "\u{FFFD}A");
    assert_eq!(decode_modified_utf8(&[0xFF, 0x41]), "\u{FFFD}A");
    assert_eq!(decode_modified_utf8(&[0x00]), "\u{FFFD}");
}

#[test]
fn error_messages() {
    let e = DecodeError { kind: ErrorKind::BadMagic, offset: 0 };
    assert_eq!(e.message(), "bad magic number");
}

#[test]
fn zero_length_attribute_ending_the_input() {
    let pool = sample_pool();
    let mut reader = ByteReader::from_bytes(vec![0x00, 0x01, 0x00, 0x00, 0x00, 0x00]);
    let r = AttributeInfo::new(&mut reader, &pool);
    assert_eq!(r.unwrap_err(), DecodeError { kind: ErrorKind::LengthMismatch, offset: 6 });
    let mut reader = ByteReader::from_bytes(vec![0x00, 0x04, 0x00, 0x00, 0x00, 0x00]);
    let r = AttributeInfo::new(&mut reader, &pool);
    assert_eq!(r.unwrap_err(), DecodeError { kind: ErrorKind::LengthMismatch, offset: 6 });
    let mut reader = ByteReader::from_bytes(vec![0x00, 0x03, 0x00, 0x00, 0x00, 0x00]);
    assert!(AttributeInfo::new(&mut reader, &pool).is_ok());
}

#[test]
fn failed_decode_leaves_reader_in_place() {
    let mut reader = ByteReader::from_bytes(minimal_class(7));
    assert!(ClassFile::new(&mut reader).is_err());
    assert_eq!(reader.position(), 0);
    let bytes = minimal_class(0);
    let total = bytes.len();
    let mut reader = ByteReader::from_bytes(bytes);
    assert!(ClassFile::new(&mut reader).is_ok());
    assert_eq!(reader.position(), total);
}

#[test]
fn read_super_class_index() {
    let pool = read_pool(pool_bytes(&[utf8("A"), vec![7, 0, 1]], 3));
    let mut reader = ByteReader::from_bytes(vec![0x00, 0x00]);
    assert!(ClassFile::read_super_class(&mut reader, &pool).unwrap().is_none());
    assert_eq!(reader.position(), 2);
    let mut reader = ByteReader::from_bytes(vec![0x00, 0x02]);
    assert_eq!(ClassFile::read_super_class(&mut reader, &pool).unwrap().unwrap().name_index, 1);
    for bad in [1u8, 3, 9] {
        let mut reader = ByteReader::from_bytes(vec![0x00, bad]);
        let r = ClassFile::read_super_class(&mut reader, &pool);
        assert_eq!(r.unwrap_err(), DecodeError { kind: ErrorKind::BadPoolRef, offset: 0 });
    }
}

#[test]
fn replaced_sequences_are_flagged() {
    assert!(is_valid_modified_utf8(&[0x41, 0xC0, 0x80, 0xED, 0xA0, 0xBD, 0xED, 0xB8, 0x80]));
    assert!(!is_valid_modified_utf8(&[0xFF]));
    assert!(!is_valid_modified_utf8(&[0xED, 0xA0, 0xBD]));
    assert!(is_valid_modified_utf8(&[0xEF, 0xBF, 0xBD]));
    let pool = read_pool(pool_bytes(&[vec![1, 0, 2, 0x41, 0xFF], utf8("ok")], 3));
    let bad = pool.as_utf8(1).unwrap();
    assert!(bad.replaced);
    assert_eq!(bad.string, "A\u{FFFD}");
    assert!(!pool.as_utf8(2).unwrap().replaced);
}
