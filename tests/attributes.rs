use jadis::access_flags::{MethodParameterAccessFlags, ModuleExportsFlags, ModuleFlags, NestedClassAccessFlags};
use jadis::annotation::{ElementValue, TargetInfo};
use jadis::attribute::{AttributeData, AttributeInfo, AttributeType};
use jadis::byte_reader::ByteReader;
use jadis::constant_pool::ConstantPool;
use jadis::error::{DecodeError, ErrorKind};
use jadis::stack_map::VerificationTypeInfo;

const NAMES: [&str; 18] = [
    "StackMapTable",
    "RuntimeVisibleAnnotations",
    "RuntimeInvisibleParameterAnnotations",
    "RuntimeVisibleTypeAnnotations",
    "AnnotationDefault",
    "Exceptions",
    "InnerClasses",
    "MethodParameters",
    "Module",
    "BootstrapMethods",
    "Record",
    "Signature",
    "SourceDebugExtension",
    "LocalVariableTable",
    "NestMembers",
    "EnclosingMethod",
    "Deprecated",
    "PermittedSubclasses",
];

fn pool() -> ConstantPool {
    let mut v = ((NAMES.len() + 1) as u16).to_be_bytes().to_vec();
    for n in NAMES.iter() {
        v.push(1);
        v.extend_from_slice(&(n.len() as u16).to_be_bytes());
        v.extend_from_slice(n.as_bytes());
    }
    let mut reader = ByteReader::from_bytes(v);
    ConstantPool::read(&mut reader).unwrap()
}

fn index_of(name: &str) -> u16 {
    (NAMES.iter().position(|n| *n == name).unwrap() + 1) as u16
}

fn attribute(name: &str, payload: &[u8]) -> Vec<u8> {
    let mut v = index_of(name).to_be_bytes().to_vec();
    v.extend_from_slice(&(payload.len() as u32).to_be_bytes());
    v.extend_from_slice(payload);
    v
}

fn decode(name: &str, payload: &[u8]) -> Result<AttributeInfo, DecodeError> {
    let bytes = attribute(name, payload);
    let total = bytes.len();
    let mut reader = ByteReader::from_bytes(bytes);
    let r = AttributeInfo::new(&mut reader, &pool());
    if r.is_ok() {
        assert_eq!(reader.position(), total);
    }
    r
}

#[test]
fn stack_map_table_frames() {
    let payload = [
        0x00, 0x05, // five frames
        0x03, // same frame, delta 3
        0x41, 0x01, // one stack item, Integer, delta 1
        0xF8, 0x00, 0x02, // chop frame
        0xFC, 0x00, 0x04, 0x07, 0x00, 0x09, // append one local: Object #9
        0xFF, 0x00, 0x06, 0x00, 0x01, 0x04, 0x00, 0x01, 0x08, 0x00, 0x10, // full frame
    ];
    let a = decode("StackMapTable", &payload).unwrap();
    assert_eq!(a.attribute_type, AttributeType::StackMapTable);
    match a.data {
        AttributeData::StackMapTable(t) => {
            assert_eq!(t.entries.len(), 5);
            assert_eq!(t.entries[0].offset_delta, 3);
            assert_eq!(t.entries[1].offset_delta, 1);
            assert_eq!(t.entries[1].stack, vec![VerificationTypeInfo::Integer]);
            assert_eq!(t.entries[2].frame_type, 0xF8);
            assert_eq!(t.entries[2].offset_delta, 2);
            assert_eq!(t.entries[3].locals, vec![VerificationTypeInfo::Object(9)]);
            assert_eq!(t.entries[4].locals, vec![VerificationTypeInfo::Long]);
            assert_eq!(t.entries[4].stack, vec![VerificationTypeInfo::Uninitialized(16)]);
        },
        other => panic!("unexpected {:?}", other),
    }
}

#[test]
fn stack_map_reserved_frame_type() {
    let r = decode("StackMapTable", &[0x00, 0x01, 0x80]);
    assert_eq!(r.unwrap_err(), DecodeError { kind: ErrorKind::MalformedTag, offset: 8 });
    let r = decode("StackMapTable", &[0x00, 0x01, 0x40, 0x09]);
    assert_eq!(r.unwrap_err(), DecodeError { kind: ErrorKind::MalformedTag, offset: 9 });
}

#[test]
fn runtime_visible_annotations() {
    let payload = [
        0x00, 0x01, // one annotation
        0x00, 0x07, 0x00, 0x03, // type #7, three pairs
        0x00, 0x08, b'I', 0x00, 0x0A, // int constant
        0x00, 0x09, b'[', 0x00, 0x02, b'c', 0x00, 0x0B, b'e', 0x00, 0x0C, 0x00, 0x0D, // array
        0x00, 0x0E, b'@', 0x00, 0x0F, 0x00, 0x00, // nested annotation without pairs
    ];
    let a = decode("RuntimeVisibleAnnotations", &payload).unwrap();
    match a.data {
        AttributeData::RuntimeVisibleAnnotations(t) => {
            assert_eq!(t.annotations.len(), 1);
            let ann = &t.annotations[0];
            assert_eq!(ann.type_index, 7);
            assert_eq!(ann.element_value_pairs.len(), 3);
            match &ann.element_value_pairs[0].value {
                ElementValue::Const { tag, const_value_index } => assert_eq!((*tag, *const_value_index), (b'I', 10)),
                other => panic!("unexpected {:?}", other),
            }
            match &ann.element_value_pairs[1].value {
                ElementValue::Array(vs) => {
                    assert_eq!(vs.len(), 2);
                    assert!(matches!(vs[0], ElementValue::Class { class_info_index: 11 }));
                    assert!(matches!(vs[1], ElementValue::EnumConst { type_name_index: 12, const_name_index: 13 }));
                },
                other => panic!("unexpected {:?}", other),
            }
            match &ann.element_value_pairs[2].value {
                ElementValue::Annotation(n) => {
                    assert_eq!(n.type_index, 15);
                    assert!(n.element_value_pairs.is_empty());
                },
                other => panic!("unexpected {:?}", other),
            }
        },
        other => panic!("unexpected {:?}", other),
    }
}

#[test]
fn element_value_bad_tag() {
    let r = decode("AnnotationDefault", &[b'x', 0x00, 0x01]);
    assert_eq!(r.unwrap_err(), DecodeError { kind: ErrorKind::MalformedTag, offset: 6 });
    let a = decode("AnnotationDefault", &[b's', 0x00, 0x01]).unwrap();
    match a.data {
        AttributeData::AnnotationDefault(d) => {
            assert!(matches!(d.default_value, ElementValue::Const { tag: b's', const_value_index: 1 }))
        },
        other => panic!("unexpected {:?}", other),
    }
}

#[test]
fn parameter_annotations() {
    let payload = [0x02, 0x00, 0x00, 0x00, 0x01, 0x00, 0x05, 0x00, 0x00];
    let a = decode("RuntimeInvisibleParameterAnnotations", &payload).unwrap();
    match a.data {
        AttributeData::RuntimeInvisibleParameterAnnotations(t) => {
            assert_eq!(t.parameter_annotations.len(), 2);
            assert!(t.parameter_annotations[0].annotations.is_empty());
            assert_eq!(t.parameter_annotations[1].annotations[0].type_index, 5);
        },
        other => panic!("unexpected {:?}", other),
    }
}

#[test]
fn type_annotations() {
    let payload = [
        0x00, 0x02, // two type annotations
        0x40, 0x00, 0x01, 0x00, 0x00, 0x00, 0x05, 0x00, 0x02, // local variable target
        0x01, 0x03, 0x00, // type path: one step
        0x00, 0x06, 0x00, 0x00, // type #6, no pairs
        0x13, // empty target
        0x00, // no path
        0x00, 0x07, 0x00, 0x00,
    ];
    let a = decode("RuntimeVisibleTypeAnnotations", &payload).unwrap();
    match a.data {
        AttributeData::RuntimeVisibleTypeAnnotations(t) => {
            assert_eq!(t.annotations.len(), 2);
            let first = &t.annotations[0];
            assert_eq!(first.target_type, 0x40);
            match &first.target_info {
                TargetInfo::LocalVar(table) => {
                    assert_eq!(table.len(), 1);
                    assert_eq!((table[0].start_pc, table[0].length, table[0].index), (0, 5, 2));
                },
                other => panic!("unexpected {:?}", other),
            }
            assert_eq!(first.target_path.len(), 1);
            assert_eq!(first.target_path[0].type_path_kind, 3);
            assert_eq!(first.type_index, 6);
            assert!(matches!(t.annotations[1].target_info, TargetInfo::Empty));
        },
        other => panic!("unexpected {:?}", other),
    }
    let r = decode("RuntimeVisibleTypeAnnotations", &[0x00, 0x01, 0x20, 0x00]);
    assert_eq!(r.unwrap_err(), DecodeError { kind: ErrorKind::MalformedTag, offset: 8 });
}

#[test]
fn exceptions_and_nest_members() {
    let a = decode("Exceptions", &[0x00, 0x02, 0x00, 0x03, 0x00, 0x04]).unwrap();
    match a.data {
        AttributeData::Exceptions(t) => {
            assert_eq!(t.number_of_exceptions, 2);
            assert_eq!(t.exception_index_table, vec![3, 4]);
        },
        other => panic!("unexpected {:?}", other),
    }
    let a = decode("NestMembers", &[0x00, 0x01, 0x00, 0x09]).unwrap();
    match a.data {
        AttributeData::NestMembers(t) => assert_eq!(t.classes, vec![9]),
        other => panic!("unexpected {:?}", other),
    }
    let a = decode("PermittedSubclasses", &[0x00, 0x00]).unwrap();
    assert_eq!(a.attribute_type, AttributeType::PermittedSubclasses);
    // a table that does not fit in the declared length
    let r = decode("Exceptions", &[0x00, 0x02, 0x00, 0x03]);
    assert_eq!(r.unwrap_err(), DecodeError { kind: ErrorKind::LengthMismatch, offset: 8 });
}

#[test]
fn inner_classes_and_method_parameters() {
    let a = decode("InnerClasses", &[0x00, 0x01, 0x00, 0x02, 0x00, 0x03, 0x00, 0x04, 0x00, 0x09]).unwrap();
    match a.data {
        AttributeData::InnerClasses(t) => {
            assert_eq!(t.classes.len(), 1);
            assert_eq!(t.classes[0].inner_name_index, 4);
            assert_eq!(
                t.classes[0].inner_class_access_flags,
                vec![NestedClassAccessFlags::AccPublic, NestedClassAccessFlags::AccStatic]
            );
        },
        other => panic!("unexpected {:?}", other),
    }
    // the parameter count is a single byte
    let a = decode("MethodParameters", &[0x01, 0x00, 0x05, 0x80, 0x10]).unwrap();
    match a.data {
        AttributeData::MethodParameters(t) => {
            assert_eq!(t.parameters.len(), 1);
            assert_eq!(t.parameters[0].name_index, 5);
            assert_eq!(
                t.parameters[0].access_flags,
                vec![MethodParameterAccessFlags::AccFinal, MethodParameterAccessFlags::AccMandated]
            );
        },
        other => panic!("unexpected {:?}", other),
    }
}

#[test]
fn module_attribute() {
    let payload = [
        0x00, 0x01, 0x00, 0x20, 0x00, 0x00, // name, open, no version
        0x00, 0x01, 0x00, 0x02, 0x80, 0x00, 0x00, 0x00, // one requires
        0x00, 0x01, 0x00, 0x03, 0x10, 0x00, 0x00, 0x01, 0x00, 0x04, // one exports, to one module
        0x00, 0x00, // no opens
        0x00, 0x02, 0x00, 0x05, 0x00, 0x06, // two uses
        0x00, 0x01, 0x00, 0x07, 0x00, 0x01, 0x00, 0x08, // one provides, with one
    ];
    let a = decode("Module", &payload).unwrap();
    match a.data {
        AttributeData::Module(m) => {
            assert_eq!(m.module_flags, vec![ModuleFlags::AccOpen]);
            assert_eq!(m.module_requires.len(), 1);
            assert_eq!(m.module_requires[0].requires_index, 2);
            assert_eq!(m.exports[0].exports_flags, vec![ModuleExportsFlags::AccSynthetic]);
            assert_eq!(m.exports[0].exports_to_index, vec![4]);
            assert!(m.opens.is_empty());
            assert_eq!(m.uses_index, vec![5, 6]);
            assert_eq!(m.provides[0].provides_with_count, 1);
            assert_eq!(m.provides[0].provides_with_index, vec![8]);
        },
        other => panic!("unexpected {:?}", other),
    }
}

#[test]
fn bootstrap_methods() {
    let payload = [0x00, 0x02, 0x00, 0x01, 0x00, 0x00, 0x00, 0x02, 0x00, 0x02, 0x00, 0x03, 0x00, 0x04];
    let a = decode("BootstrapMethods", &payload).unwrap();
    match a.data {
        AttributeData::BootstrapMethods(t) => {
            assert_eq!(t.bootstrap_methods.len(), 2);
            assert!(t.bootstrap_methods[0].bootstrap_arguments.is_empty());
            assert_eq!(t.bootstrap_methods[1].bootstrap_method_ref, 2);
            assert_eq!(t.bootstrap_methods[1].bootstrap_arguments, vec![3, 4]);
        },
        other => panic!("unexpected {:?}", other),
    }
}

#[test]
fn record_with_component_attributes() {
    let mut payload = vec![0x00, 0x01, 0x00, 0x02, 0x00, 0x03, 0x00, 0x01];
    payload.extend(attribute("Signature", &[0x00, 0x04]));
    let a = decode("Record", &payload).unwrap();
    match a.data {
        AttributeData::Record(r) => {
            assert_eq!(r.components.len(), 1);
            assert_eq!(r.components[0].name_index, 2);
            assert_eq!(r.components[0].attributes.len(), 1);
            match &r.components[0].attributes[0].data {
                AttributeData::Signature(s) => assert_eq!(s.signature_index, 4),
                other => panic!("unexpected {:?}", other),
            }
        },
        other => panic!("unexpected {:?}", other),
    }
}

#[test]
fn debug_extension_and_local_variables() {
    let a = decode("SourceDebugExtension", &[0xC0, 0x80, 0x41]).unwrap();
    match a.data {
        AttributeData::SourceDebugExtension(t) => assert_eq!(t.debug_extension, vec![0xC0, 0x80, 0x41]),
        other => panic!("unexpected {:?}", other),
    }
    let a = decode("LocalVariableTable", &[0x00, 0x01, 0x00, 0x00, 0x00, 0x05, 0x00, 0x06, 0x00, 0x07, 0x00, 0x00]).unwrap();
    match a.data {
        AttributeData::LocalVariableTable(t) => {
            let v = t.local_variable_table[0];
            assert_eq!((v.start_pc, v.length, v.name_index, v.descriptor_index, v.index), (0, 5, 6, 7, 0));
        },
        other => panic!("unexpected {:?}", other),
    }
    let a = decode("EnclosingMethod", &[0x00, 0x01, 0x00, 0x02]).unwrap();
    match a.data {
        AttributeData::EnclosingMethod(m) => assert_eq!((m.class_index, m.method_index), (1, 2)),
        other => panic!("unexpected {:?}", other),
    }
    let a = decode("Deprecated", &[]).unwrap();
    assert_eq!(a.attribute_type, AttributeType::Deprecated);
}
