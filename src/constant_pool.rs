//! The constant pool: a 1-based table of tagged constants. A Long or a
//! Double takes two indices, and the index after it holds nothing.

use std::collections::BTreeMap;
use vstd::prelude::*;
use crate::byte_reader::{agrees_view, take_bytes, take_u16, take_u32, take_u8, u16_at, ByteReader, Parsed};
use crate::error::{error_at, DecodeError, ErrorKind};
use crate::mutf8::{code_points, decode_modified_utf8, is_valid_modified_utf8, mutf8_decode, mutf8_valid};
use crate::utils::{be_i32, be_i64, to_i32, to_i64};

verus! {

broadcast use vstd::std_specs::btree::group_btree_axioms;

/// Constant pool tags
#[derive(Clone, Copy, Debug, PartialEq, Eq, Structural)]
pub enum Tag {
    /// UTF-8 string
    ConstantUtf8,

    /// Integer value
    ConstantInteger,

    /// Floating-point value, as its IEEE-754 bit pattern
    ConstantFloat,

    /// Long value
    ConstantLong,

    /// Double value, as its IEEE-754 bit pattern
    ConstantDouble,

    /// Class structure
    ConstantClass,

    /// Reference to a UTF-8 string
    ConstantString,

    /// Reference to a field
    ConstantFieldRef,

    /// Reference to a method
    ConstantMethodRef,

    /// Reference to an interface method
    ConstantInterfaceMethodRef,

    /// Name and type information
    ConstantNameAndType,

    /// Method handle
    ConstantMethodHandle,

    /// Method type
    ConstantMethodType,

    /// Dynamically-computed entity
    ConstantDynamic,

    /// Dynamically-computed call site
    ConstantInvokeDynamic,

    /// Module
    ConstantModule,

    /// Package
    ConstantPackage,
}

/// The tag that a tag byte stands for.
pub open spec fn tag_of(b: u8) -> Option<Tag> {
    match b {
        1 => Some(Tag::ConstantUtf8),
        3 => Some(Tag::ConstantInteger),
        4 => Some(Tag::ConstantFloat),
        5 => Some(Tag::ConstantLong),
        6 => Some(Tag::ConstantDouble),
        7 => Some(Tag::ConstantClass),
        8 => Some(Tag::ConstantString),
        9 => Some(Tag::ConstantFieldRef),
        10 => Some(Tag::ConstantMethodRef),
        11 => Some(Tag::ConstantInterfaceMethodRef),
        12 => Some(Tag::ConstantNameAndType),
        15 => Some(Tag::ConstantMethodHandle),
        16 => Some(Tag::ConstantMethodType),
        17 => Some(Tag::ConstantDynamic),
        18 => Some(Tag::ConstantInvokeDynamic),
        19 => Some(Tag::ConstantModule),
        20 => Some(Tag::ConstantPackage),
        _ => None,
    }
}

impl Tag {
    /// Convert a tag byte into its tag, if it is one
    pub fn from_tag(tag: u8) -> (r: Option<Tag>)
        ensures
            r == tag_of(tag),
    {
        match tag {
            1 => Some(Tag::ConstantUtf8),
            3 => Some(Tag::ConstantInteger),
            4 => Some(Tag::ConstantFloat),
            5 => Some(Tag::ConstantLong),
            6 => Some(Tag::ConstantDouble),
            7 => Some(Tag::ConstantClass),
            8 => Some(Tag::ConstantString),
            9 => Some(Tag::ConstantFieldRef),
            10 => Some(Tag::ConstantMethodRef),
            11 => Some(Tag::ConstantInterfaceMethodRef),
            12 => Some(Tag::ConstantNameAndType),
            15 => Some(Tag::ConstantMethodHandle),
            16 => Some(Tag::ConstantMethodType),
            17 => Some(Tag::ConstantDynamic),
            18 => Some(Tag::ConstantInvokeDynamic),
            19 => Some(Tag::ConstantModule),
            20 => Some(Tag::ConstantPackage),
            _ => None,
        }
    }
}

/// Bytecode behaviours for method handles
#[derive(Clone, Copy, Debug, PartialEq, Eq, Structural)]
pub enum MethodHandleType {
    /// getfield C.f:T
    RefGetField,

    /// getstatic C.f:T
    RefGetStatic,

    /// putfield C.f:T
    RefPutField,

    /// putstatic C.f:T
    RefPutStatic,

    /// invokevirtual C.m:(A*)T
    RefInvokeVirtual,

    /// invokestatic C.m:(A*)T
    RefInvokeStatic,

    /// invokespecial C.m:(A*)T
    RefInvokeSpecial,

    /// new C; dup; invokespecial C.<init>:(A*)V
    RefNewInvokeSpecial,

    /// invokeinterface C.m:(A*)T
    RefInvokeInterface,
}

/// The method handle kind that a kind byte stands for.
pub open spec fn method_handle_of(b: u8) -> Option<MethodHandleType> {
    match b {
        1 => Some(MethodHandleType::RefGetField),
        2 => Some(MethodHandleType::RefGetStatic),
        3 => Some(MethodHandleType::RefPutField),
        4 => Some(MethodHandleType::RefPutStatic),
        5 => Some(MethodHandleType::RefInvokeVirtual),
        6 => Some(MethodHandleType::RefInvokeStatic),
        7 => Some(MethodHandleType::RefInvokeSpecial),
        8 => Some(MethodHandleType::RefNewInvokeSpecial),
        9 => Some(MethodHandleType::RefInvokeInterface),
        _ => None,
    }
}

impl MethodHandleType {
    /// Convert a kind byte into its method handle kind, if it is one
    pub fn from_kind(kind: u8) -> (r: Option<MethodHandleType>)
        ensures
            r == method_handle_of(kind),
    {
        match kind {
            1 => Some(MethodHandleType::RefGetField),
            2 => Some(MethodHandleType::RefGetStatic),
            3 => Some(MethodHandleType::RefPutField),
            4 => Some(MethodHandleType::RefPutStatic),
            5 => Some(MethodHandleType::RefInvokeVirtual),
            6 => Some(MethodHandleType::RefInvokeStatic),
            7 => Some(MethodHandleType::RefInvokeSpecial),
            8 => Some(MethodHandleType::RefNewInvokeSpecial),
            9 => Some(MethodHandleType::RefInvokeInterface),
            _ => None,
        }
    }
}

/// Constant pool UTF-8 string
#[derive(Clone, Debug)]
pub struct ConstantUtf8Info {
    pub constant_pool_index: u16,
    /// The number of bytes of the encoded string
    pub length: u16,
    pub string: String,
    /// Set when an invalid sequence was decoded to U+FFFD
    pub replaced: bool,
}

/// A UTF-8 constant, with its string as code points.
pub ghost struct ConstantUtf8View {
    pub constant_pool_index: u16,
    pub length: u16,
    pub string: Seq<int>,
    pub replaced: bool,
}

impl View for ConstantUtf8Info {
    type V = ConstantUtf8View;

    open spec fn view(&self) -> ConstantUtf8View {
        ConstantUtf8View {
            constant_pool_index: self.constant_pool_index,
            length: self.length,
            string: code_points(self.string@),
            replaced: self.replaced,
        }
    }
}

/// Constant pool entry: integer value
#[derive(Clone, Copy, Debug, PartialEq, Eq, Structural)]
pub struct ConstantIntegerInfo {
    pub constant_pool_index: u16,
    pub value: i32,
}

/// Constant pool entry: floating-point value, as its ieee-754 bit pattern
#[derive(Clone, Copy, Debug, PartialEq, Eq, Structural)]
pub struct ConstantFloatInfo {
    pub constant_pool_index: u16,
    pub bits: u32,
}

/// Constant pool entry: long value
#[derive(Clone, Copy, Debug, PartialEq, Eq, Structural)]
pub struct ConstantLongInfo {
    pub constant_pool_index: u16,
    pub value: i64,
}

/// Constant pool entry: double value, as its ieee-754 bit pattern
#[derive(Clone, Copy, Debug, PartialEq, Eq, Structural)]
pub struct ConstantDoubleInfo {
    pub constant_pool_index: u16,
    pub bits: u64,
}

/// Constant pool entry: class structure
#[derive(Clone, Copy, Debug, PartialEq, Eq, Structural)]
pub struct ConstantClassInfo {
    pub constant_pool_index: u16,
    pub name_index: u16,
}

/// Constant pool entry: reference to a utf-8 string
#[derive(Clone, Copy, Debug, PartialEq, Eq, Structural)]
pub struct ConstantStringInfo {
    pub constant_pool_index: u16,
    pub string_index: u16,
}

/// Constant pool entry: reference to a field
#[derive(Clone, Copy, Debug, PartialEq, Eq, Structural)]
pub struct ConstantFieldRefInfo {
    pub constant_pool_index: u16,
    pub class_index: u16,
    pub name_and_type_index: u16,
}

/// Constant pool entry: reference to a method
#[derive(Clone, Copy, Debug, PartialEq, Eq, Structural)]
pub struct ConstantMethodRefInfo {
    pub constant_pool_index: u16,
    pub class_index: u16,
    pub name_and_type_index: u16,
}

/// Constant pool entry: reference to an interface method
#[derive(Clone, Copy, Debug, PartialEq, Eq, Structural)]
pub struct ConstantInterfaceMethodRefInfo {
    pub constant_pool_index: u16,
    pub class_index: u16,
    pub name_and_type_index: u16,
}

/// Constant pool entry: name and type information
#[derive(Clone, Copy, Debug, PartialEq, Eq, Structural)]
pub struct ConstantNameAndTypeInfo {
    pub constant_pool_index: u16,
    pub name_index: u16,
    pub descriptor_index: u16,
}

/// Constant pool entry: method handle
#[derive(Clone, Copy, Debug, PartialEq, Eq, Structural)]
pub struct ConstantMethodHandleInfo {
    pub constant_pool_index: u16,
    pub reference_kind: MethodHandleType,
    pub reference_index: u16,
}

/// Constant pool entry: method type
#[derive(Clone, Copy, Debug, PartialEq, Eq, Structural)]
pub struct ConstantMethodTypeInfo {
    pub constant_pool_index: u16,
    pub descriptor_index: u16,
}

/// Constant pool entry: dynamically-computed entity
#[derive(Clone, Copy, Debug, PartialEq, Eq, Structural)]
pub struct ConstantDynamicInfo {
    pub constant_pool_index: u16,
    pub bootstrap_method_attr_index: u16,
    pub name_and_type_index: u16,
}

/// Constant pool entry: dynamically-computed call site
#[derive(Clone, Copy, Debug, PartialEq, Eq, Structural)]
pub struct ConstantInvokeDynamicInfo {
    pub constant_pool_index: u16,
    pub bootstrap_method_attr_index: u16,
    pub name_and_type_index: u16,
}

/// Constant pool entry: module
#[derive(Clone, Copy, Debug, PartialEq, Eq, Structural)]
pub struct ConstantModuleInfo {
    pub constant_pool_index: u16,
    pub name_index: u16,
}

/// Constant pool entry: package
#[derive(Clone, Copy, Debug, PartialEq, Eq, Structural)]
pub struct ConstantPackageInfo {
    pub constant_pool_index: u16,
    pub name_index: u16,
}

/// Represents an entity in the constant pool
#[derive(Clone, Debug)]
pub enum ConstantPoolInfo {
    Utf8(ConstantUtf8Info),
    Integer(ConstantIntegerInfo),
    Float(ConstantFloatInfo),
    Long(ConstantLongInfo),
    Double(ConstantDoubleInfo),
    Class(ConstantClassInfo),
    String(ConstantStringInfo),
    FieldRef(ConstantFieldRefInfo),
    MethodRef(ConstantMethodRefInfo),
    InterfaceMethodRef(ConstantInterfaceMethodRefInfo),
    NameAndType(ConstantNameAndTypeInfo),
    MethodHandle(ConstantMethodHandleInfo),
    MethodType(ConstantMethodTypeInfo),
    Dynamic(ConstantDynamicInfo),
    InvokeDynamic(ConstantInvokeDynamicInfo),
    Module(ConstantModuleInfo),
    Package(ConstantPackageInfo),
}

/// A constant as a ghost value.
pub ghost enum ConstantModel {
    Utf8(ConstantUtf8View),
    Integer(ConstantIntegerInfo),
    Float(ConstantFloatInfo),
    Long(ConstantLongInfo),
    Double(ConstantDoubleInfo),
    Class(ConstantClassInfo),
    String(ConstantStringInfo),
    FieldRef(ConstantFieldRefInfo),
    MethodRef(ConstantMethodRefInfo),
    InterfaceMethodRef(ConstantInterfaceMethodRefInfo),
    NameAndType(ConstantNameAndTypeInfo),
    MethodHandle(ConstantMethodHandleInfo),
    MethodType(ConstantMethodTypeInfo),
    Dynamic(ConstantDynamicInfo),
    InvokeDynamic(ConstantInvokeDynamicInfo),
    Module(ConstantModuleInfo),
    Package(ConstantPackageInfo),
}

impl ConstantModel {
    /// The tag of this constant.
    pub open spec fn tag(self) -> Tag {
        match self {
            ConstantModel::Utf8(_) => Tag::ConstantUtf8,
            ConstantModel::Integer(_) => Tag::ConstantInteger,
            ConstantModel::Float(_) => Tag::ConstantFloat,
            ConstantModel::Long(_) => Tag::ConstantLong,
            ConstantModel::Double(_) => Tag::ConstantDouble,
            ConstantModel::Class(_) => Tag::ConstantClass,
            ConstantModel::String(_) => Tag::ConstantString,
            ConstantModel::FieldRef(_) => Tag::ConstantFieldRef,
            ConstantModel::MethodRef(_) => Tag::ConstantMethodRef,
            ConstantModel::InterfaceMethodRef(_) => Tag::ConstantInterfaceMethodRef,
            ConstantModel::NameAndType(_) => Tag::ConstantNameAndType,
            ConstantModel::MethodHandle(_) => Tag::ConstantMethodHandle,
            ConstantModel::MethodType(_) => Tag::ConstantMethodType,
            ConstantModel::Dynamic(_) => Tag::ConstantDynamic,
            ConstantModel::InvokeDynamic(_) => Tag::ConstantInvokeDynamic,
            ConstantModel::Module(_) => Tag::ConstantModule,
            ConstantModel::Package(_) => Tag::ConstantPackage,
        }
    }

    /// The number of pool indices this constant takes.
    pub open spec fn width(self) -> int {
        match self {
            ConstantModel::Long(_) | ConstantModel::Double(_) => 2,
            _ => 1,
        }
    }
}

impl View for ConstantPoolInfo {
    type V = ConstantModel;

    open spec fn view(&self) -> ConstantModel {
        match self {
            ConstantPoolInfo::Utf8(x) => ConstantModel::Utf8(x@),
            ConstantPoolInfo::Integer(x) => ConstantModel::Integer(*x),
            ConstantPoolInfo::Float(x) => ConstantModel::Float(*x),
            ConstantPoolInfo::Long(x) => ConstantModel::Long(*x),
            ConstantPoolInfo::Double(x) => ConstantModel::Double(*x),
            ConstantPoolInfo::Class(x) => ConstantModel::Class(*x),
            ConstantPoolInfo::String(x) => ConstantModel::String(*x),
            ConstantPoolInfo::FieldRef(x) => ConstantModel::FieldRef(*x),
            ConstantPoolInfo::MethodRef(x) => ConstantModel::MethodRef(*x),
            ConstantPoolInfo::InterfaceMethodRef(x) => ConstantModel::InterfaceMethodRef(*x),
            ConstantPoolInfo::NameAndType(x) => ConstantModel::NameAndType(*x),
            ConstantPoolInfo::MethodHandle(x) => ConstantModel::MethodHandle(*x),
            ConstantPoolInfo::MethodType(x) => ConstantModel::MethodType(*x),
            ConstantPoolInfo::Dynamic(x) => ConstantModel::Dynamic(*x),
            ConstantPoolInfo::InvokeDynamic(x) => ConstantModel::InvokeDynamic(*x),
            ConstantPoolInfo::Module(x) => ConstantModel::Module(*x),
            ConstantPoolInfo::Package(x) => ConstantModel::Package(*x),
        }
    }
}

/// Reading two big-endian u16 values.
pub open spec fn take_u16_pair(d: Seq<u8>, e: int, p: int) -> Parsed<(u16, u16)> {
    match take_u16(d, e, p) {
        Err(err) => Err(err),
        Ok((a, p1)) => match take_u16(d, e, p1) {
            Err(err) => Err(err),
            Ok((b, p2)) => Ok(((a, b), p2)),
        },
    }
}

/// The payload of a constant with tag `tag`, stored at pool index `index`.
pub open spec fn parse_constant_body(d: Seq<u8>, e: int, p: int, index: u16, tag: Tag) -> Parsed<ConstantModel> {
    match tag {
        Tag::ConstantUtf8 => {
            match take_u16(d, e, p) {
                Err(err) => Err(err),
                Ok((n, p1)) => match take_bytes(d, e, p1, n as int) {
                    Err(err) => Err(err),
                    Ok((bytes, p2)) => Ok((
                        ConstantModel::Utf8(
                            ConstantUtf8View {
                                constant_pool_index: index,
                                length: n,
                                string: mutf8_decode(bytes),
                                replaced: !mutf8_valid(bytes),
                            },
                        ),
                        p2,
                    )),
                },
            }
        },
        Tag::ConstantInteger => {
            match take_bytes(d, e, p, 4) {
                Err(err) => Err(err),
                Ok((b, p1)) => Ok((
                    ConstantModel::Integer(
                        ConstantIntegerInfo { constant_pool_index: index, value: be_i32(b[0], b[1], b[2], b[3]) },
                    ),
                    p1,
                )),
            }
        },
        Tag::ConstantFloat => {
            match take_u32(d, e, p) {
                Err(err) => Err(err),
                Ok((bits, p1)) => Ok((ConstantModel::Float(ConstantFloatInfo { constant_pool_index: index, bits }), p1)),
            }
        },
        Tag::ConstantLong => {
            match take_bytes(d, e, p, 8) {
                Err(err) => Err(err),
                Ok((b, p1)) => Ok((
                    ConstantModel::Long(ConstantLongInfo { constant_pool_index: index, value: be_i64(b) }),
                    p1,
                )),
            }
        },
        Tag::ConstantDouble => {
            match take_u32(d, e, p) {
                Err(err) => Err(err),
                Ok((hi, p1)) => match take_u32(d, e, p1) {
                    Err(err) => Err(err),
                    Ok((lo, p2)) => Ok((
                        ConstantModel::Double(
                            ConstantDoubleInfo {
                                constant_pool_index: index,
                                bits: (hi as int * 0x1_0000_0000 + lo as int) as u64,
                            },
                        ),
                        p2,
                    )),
                },
            }
        },
        Tag::ConstantClass => {
            match take_u16(d, e, p) {
                Err(err) => Err(err),
                Ok((a, p1)) => Ok((ConstantModel::Class(ConstantClassInfo { constant_pool_index: index, name_index: a }), p1)),
            }
        },
        Tag::ConstantString => {
            match take_u16(d, e, p) {
                Err(err) => Err(err),
                Ok((a, p1)) => Ok((ConstantModel::String(ConstantStringInfo { constant_pool_index: index, string_index: a }), p1)),
            }
        },
        Tag::ConstantFieldRef => {
            match take_u16_pair(d, e, p) {
                Err(err) => Err(err),
                Ok(((a, b), p1)) => Ok((
                    ConstantModel::FieldRef(ConstantFieldRefInfo { constant_pool_index: index, class_index: a, name_and_type_index: b }),
                    p1,
                )),
            }
        },
        Tag::ConstantMethodRef => {
            match take_u16_pair(d, e, p) {
                Err(err) => Err(err),
                Ok(((a, b), p1)) => Ok((
                    ConstantModel::MethodRef(ConstantMethodRefInfo { constant_pool_index: index, class_index: a, name_and_type_index: b }),
                    p1,
                )),
            }
        },
        Tag::ConstantInterfaceMethodRef => {
            match take_u16_pair(d, e, p) {
                Err(err) => Err(err),
                Ok(((a, b), p1)) => Ok((
                    ConstantModel::InterfaceMethodRef(ConstantInterfaceMethodRefInfo { constant_pool_index: index, class_index: a, name_and_type_index: b }),
                    p1,
                )),
            }
        },
        Tag::ConstantNameAndType => {
            match take_u16_pair(d, e, p) {
                Err(err) => Err(err),
                Ok(((a, b), p1)) => Ok((
                    ConstantModel::NameAndType(ConstantNameAndTypeInfo { constant_pool_index: index, name_index: a, descriptor_index: b }),
                    p1,
                )),
            }
        },
        Tag::ConstantMethodHandle => {
            match take_u8(d, e, p) {
                Err(err) => Err(err),
                Ok((k, p1)) => match method_handle_of(k) {
                    None => Err(error_at(ErrorKind::MalformedTag, p)),
                    Some(kind) => match take_u16(d, e, p1) {
                        Err(err) => Err(err),
                        Ok((r, p2)) => Ok((
                            ConstantModel::MethodHandle(
                                ConstantMethodHandleInfo { constant_pool_index: index, reference_kind: kind, reference_index: r },
                            ),
                            p2,
                        )),
                    },
                },
            }
        },
        Tag::ConstantMethodType => {
            match take_u16(d, e, p) {
                Err(err) => Err(err),
                Ok((a, p1)) => Ok((ConstantModel::MethodType(ConstantMethodTypeInfo { constant_pool_index: index, descriptor_index: a }), p1)),
            }
        },
        Tag::ConstantDynamic => {
            match take_u16_pair(d, e, p) {
                Err(err) => Err(err),
                Ok(((a, b), p1)) => Ok((
                    ConstantModel::Dynamic(ConstantDynamicInfo { constant_pool_index: index, bootstrap_method_attr_index: a, name_and_type_index: b }),
                    p1,
                )),
            }
        },
        Tag::ConstantInvokeDynamic => {
            match take_u16_pair(d, e, p) {
                Err(err) => Err(err),
                Ok(((a, b), p1)) => Ok((
                    ConstantModel::InvokeDynamic(ConstantInvokeDynamicInfo { constant_pool_index: index, bootstrap_method_attr_index: a, name_and_type_index: b }),
                    p1,
                )),
            }
        },
        Tag::ConstantModule => {
            match take_u16(d, e, p) {
                Err(err) => Err(err),
                Ok((a, p1)) => Ok((ConstantModel::Module(ConstantModuleInfo { constant_pool_index: index, name_index: a }), p1)),
            }
        },
        Tag::ConstantPackage => {
            match take_u16(d, e, p) {
                Err(err) => Err(err),
                Ok((a, p1)) => Ok((ConstantModel::Package(ConstantPackageInfo { constant_pool_index: index, name_index: a }), p1)),
            }
        },
    }
}

/// A constant at `p`: its tag byte, then its payload.
pub open spec fn parse_constant(d: Seq<u8>, e: int, p: int, index: u16) -> Parsed<ConstantModel> {
    match take_u8(d, e, p) {
        Err(err) => Err(err),
        Ok((t, p1)) => match tag_of(t) {
            None => Err(error_at(ErrorKind::MalformedTag, p)),
            Some(tag) => parse_constant_body(d, e, p1, index, tag),
        },
    }
}

/// The pool entries from index `i` up to `count`, added to `acc`.
pub open spec fn parse_pool_from(
    d: Seq<u8>,
    e: int,
    p: int,
    i: int,
    count: int,
    acc: Map<u16, ConstantModel>,
) -> Parsed<Map<u16, ConstantModel>>
    decreases count + 1 - i,
{
    if i >= count {
        Ok((acc, p))
    } else {
        match parse_constant(d, e, p, i as u16) {
            Err(err) => Err(err),
            Ok((c, q)) => parse_pool_from(d, e, q, i + c.width(), count, acc.insert(i as u16, c)),
        }
    }
}

/// The constant pool at `p`: its count, then its entries from index 1 on.
pub open spec fn parse_pool(d: Seq<u8>, e: int, p: int) -> Parsed<Map<u16, ConstantModel>> {
    match take_u16(d, e, p) {
        Err(err) => Err(err),
        Ok((count, p1)) => parse_pool_from(d, e, p1, 1, count as int, Map::empty()),
    }
}

impl ConstantPoolInfo {
    /// The tag of this constant
    pub fn tag(&self) -> (r: Tag)
        ensures
            r == self@.tag(),
    {
        match self {
            ConstantPoolInfo::Utf8(_) => Tag::ConstantUtf8,
            ConstantPoolInfo::Integer(_) => Tag::ConstantInteger,
            ConstantPoolInfo::Float(_) => Tag::ConstantFloat,
            ConstantPoolInfo::Long(_) => Tag::ConstantLong,
            ConstantPoolInfo::Double(_) => Tag::ConstantDouble,
            ConstantPoolInfo::Class(_) => Tag::ConstantClass,
            ConstantPoolInfo::String(_) => Tag::ConstantString,
            ConstantPoolInfo::FieldRef(_) => Tag::ConstantFieldRef,
            ConstantPoolInfo::MethodRef(_) => Tag::ConstantMethodRef,
            ConstantPoolInfo::InterfaceMethodRef(_) => Tag::ConstantInterfaceMethodRef,
            ConstantPoolInfo::NameAndType(_) => Tag::ConstantNameAndType,
            ConstantPoolInfo::MethodHandle(_) => Tag::ConstantMethodHandle,
            ConstantPoolInfo::MethodType(_) => Tag::ConstantMethodType,
            ConstantPoolInfo::Dynamic(_) => Tag::ConstantDynamic,
            ConstantPoolInfo::InvokeDynamic(_) => Tag::ConstantInvokeDynamic,
            ConstantPoolInfo::Module(_) => Tag::ConstantModule,
            ConstantPoolInfo::Package(_) => Tag::ConstantPackage,
        }
    }

    /// Create a new constant pool entity from a class file binary blob
    pub fn new(reader: &mut ByteReader, index: u16) -> (r: Result<ConstantPoolInfo, DecodeError>)
        requires
            old(reader).wf(),
        ensures
            final(reader).wf(),
            final(reader).same_source(old(reader)),
            agrees_view(
                r,
                final(reader).spec_pos(),
                parse_constant(old(reader).spec_data(), old(reader).spec_limit(), old(reader).spec_pos(), index),
            ),
    {
        let start = reader.position();
        let tag = reader.read_u8()?;
        match Tag::from_tag(tag) {
            None => Err(DecodeError { kind: ErrorKind::MalformedTag, offset: start }),
            Some(Tag::ConstantUtf8) => Self::read_data_as_utf8(reader, index),
            Some(Tag::ConstantInteger) => Self::read_data_as_integer(reader, index),
            Some(Tag::ConstantFloat) => Self::read_data_as_float(reader, index),
            Some(Tag::ConstantLong) => Self::read_data_as_long(reader, index),
            Some(Tag::ConstantDouble) => Self::read_data_as_double(reader, index),
            Some(Tag::ConstantClass) => Self::read_data_as_class(reader, index),
            Some(Tag::ConstantString) => Self::read_data_as_string(reader, index),
            Some(Tag::ConstantFieldRef) => Self::read_data_as_field_ref(reader, index),
            Some(Tag::ConstantMethodRef) => Self::read_data_as_method_ref(reader, index),
            Some(Tag::ConstantInterfaceMethodRef) => Self::read_data_as_interface_method_ref(reader, index),
            Some(Tag::ConstantNameAndType) => Self::read_data_as_name_and_type(reader, index),
            Some(Tag::ConstantMethodHandle) => Self::read_data_as_method_handle(reader, index),
            Some(Tag::ConstantMethodType) => Self::read_data_as_method_type(reader, index),
            Some(Tag::ConstantDynamic) => Self::read_data_as_dynamic(reader, index),
            Some(Tag::ConstantInvokeDynamic) => Self::read_data_as_invoke_dynamic(reader, index),
            Some(Tag::ConstantModule) => Self::read_data_as_module(reader, index),
            Some(Tag::ConstantPackage) => Self::read_data_as_package(reader, index),
        }
    }

    /// Read the data blob as an UTF-8 constant pool entry
    fn read_data_as_utf8(reader: &mut ByteReader, index: u16) -> (r: Result<ConstantPoolInfo, DecodeError>)
        requires
            old(reader).wf(),
        ensures
            final(reader).wf(),
            final(reader).same_source(old(reader)),
            agrees_view(
                r,
                final(reader).spec_pos(),
                parse_constant_body(
                    old(reader).spec_data(),
                    old(reader).spec_limit(),
                    old(reader).spec_pos(),
                    index,
                    Tag::ConstantUtf8,
                ),
            ),
    {
        let length = reader.read_u16()?;
        let bytes = reader.read_n_bytes(length as usize)?;
        let string = decode_modified_utf8(bytes.as_slice());
        let replaced = !is_valid_modified_utf8(bytes.as_slice());
        Ok(ConstantPoolInfo::Utf8(ConstantUtf8Info { constant_pool_index: index, length, string, replaced }))
    }

    /// Read the data blob as an Integer constant pool entry
    fn read_data_as_integer(reader: &mut ByteReader, index: u16) -> (r: Result<ConstantPoolInfo, DecodeError>)
        requires
            old(reader).wf(),
        ensures
            final(reader).wf(),
            final(reader).same_source(old(reader)),
            agrees_view(
                r,
                final(reader).spec_pos(),
                parse_constant_body(
                    old(reader).spec_data(),
                    old(reader).spec_limit(),
                    old(reader).spec_pos(),
                    index,
                    Tag::ConstantInteger,
                ),
            ),
    {
        let bytes = reader.read_n_bytes(4)?;
        let value = to_i32(bytes.as_slice());
        Ok(ConstantPoolInfo::Integer(ConstantIntegerInfo { constant_pool_index: index, value }))
    }

    /// Read the data blob as a Float constant pool entry
    fn read_data_as_float(reader: &mut ByteReader, index: u16) -> (r: Result<ConstantPoolInfo, DecodeError>)
        requires
            old(reader).wf(),
        ensures
            final(reader).wf(),
            final(reader).same_source(old(reader)),
            agrees_view(
                r,
                final(reader).spec_pos(),
                parse_constant_body(
                    old(reader).spec_data(),
                    old(reader).spec_limit(),
                    old(reader).spec_pos(),
                    index,
                    Tag::ConstantFloat,
                ),
            ),
    {
        let bits = reader.read_u32()?;
        Ok(ConstantPoolInfo::Float(ConstantFloatInfo { constant_pool_index: index, bits }))
    }

    /// Read the data blob as a Long constant pool entry
    fn read_data_as_long(reader: &mut ByteReader, index: u16) -> (r: Result<ConstantPoolInfo, DecodeError>)
        requires
            old(reader).wf(),
        ensures
            final(reader).wf(),
            final(reader).same_source(old(reader)),
            agrees_view(
                r,
                final(reader).spec_pos(),
                parse_constant_body(
                    old(reader).spec_data(),
                    old(reader).spec_limit(),
                    old(reader).spec_pos(),
                    index,
                    Tag::ConstantLong,
                ),
            ),
    {
        let bytes = reader.read_n_bytes(8)?;
        let value = to_i64(bytes.as_slice());
        Ok(ConstantPoolInfo::Long(ConstantLongInfo { constant_pool_index: index, value }))
    }

    /// Read the data blob as a Double constant pool entry
    fn read_data_as_double(reader: &mut ByteReader, index: u16) -> (r: Result<ConstantPoolInfo, DecodeError>)
        requires
            old(reader).wf(),
        ensures
            final(reader).wf(),
            final(reader).same_source(old(reader)),
            agrees_view(
                r,
                final(reader).spec_pos(),
                parse_constant_body(
                    old(reader).spec_data(),
                    old(reader).spec_limit(),
                    old(reader).spec_pos(),
                    index,
                    Tag::ConstantDouble,
                ),
            ),
    {
        let hi = reader.read_u32()?;
        let lo = reader.read_u32()?;
        let bits = hi as u64 * 0x1_0000_0000 + lo as u64;
        Ok(ConstantPoolInfo::Double(ConstantDoubleInfo { constant_pool_index: index, bits }))
    }

    /// Read the data blob as a Class constant pool entry
    fn read_data_as_class(reader: &mut ByteReader, index: u16) -> (r: Result<ConstantPoolInfo, DecodeError>)
        requires
            old(reader).wf(),
        ensures
            final(reader).wf(),
            final(reader).same_source(old(reader)),
            agrees_view(
                r,
                final(reader).spec_pos(),
                parse_constant_body(
                    old(reader).spec_data(),
                    old(reader).spec_limit(),
                    old(reader).spec_pos(),
                    index,
                    Tag::ConstantClass,
                ),
            ),
    {
        let name_index = reader.read_u16()?;
        Ok(ConstantPoolInfo::Class(ConstantClassInfo { constant_pool_index: index, name_index }))
    }

    /// Read the data blob as a String constant pool entry
    fn read_data_as_string(reader: &mut ByteReader, index: u16) -> (r: Result<ConstantPoolInfo, DecodeError>)
        requires
            old(reader).wf(),
        ensures
            final(reader).wf(),
            final(reader).same_source(old(reader)),
            agrees_view(
                r,
                final(reader).spec_pos(),
                parse_constant_body(
                    old(reader).spec_data(),
                    old(reader).spec_limit(),
                    old(reader).spec_pos(),
                    index,
                    Tag::ConstantString,
                ),
            ),
    {
        let string_index = reader.read_u16()?;
        Ok(ConstantPoolInfo::String(ConstantStringInfo { constant_pool_index: index, string_index }))
    }

    /// Read the data blob as a FieldRef constant pool entry
    fn read_data_as_field_ref(reader: &mut ByteReader, index: u16) -> (r: Result<ConstantPoolInfo, DecodeError>)
        requires
            old(reader).wf(),
        ensures
            final(reader).wf(),
            final(reader).same_source(old(reader)),
            agrees_view(
                r,
                final(reader).spec_pos(),
                parse_constant_body(
                    old(reader).spec_data(),
                    old(reader).spec_limit(),
                    old(reader).spec_pos(),
                    index,
                    Tag::ConstantFieldRef,
                ),
            ),
    {
        let class_index = reader.read_u16()?;
        let name_and_type_index = reader.read_u16()?;
        Ok(ConstantPoolInfo::FieldRef(ConstantFieldRefInfo { constant_pool_index: index, class_index, name_and_type_index }))
    }

    /// Read the data blob as a MethodRef constant pool entry
    fn read_data_as_method_ref(reader: &mut ByteReader, index: u16) -> (r: Result<ConstantPoolInfo, DecodeError>)
        requires
            old(reader).wf(),
        ensures
            final(reader).wf(),
            final(reader).same_source(old(reader)),
            agrees_view(
                r,
                final(reader).spec_pos(),
                parse_constant_body(
                    old(reader).spec_data(),
                    old(reader).spec_limit(),
                    old(reader).spec_pos(),
                    index,
                    Tag::ConstantMethodRef,
                ),
            ),
    {
        let class_index = reader.read_u16()?;
        let name_and_type_index = reader.read_u16()?;
        Ok(ConstantPoolInfo::MethodRef(ConstantMethodRefInfo { constant_pool_index: index, class_index, name_and_type_index }))
    }

    /// Read the data blob as an InterfaceMethodRef constant pool entry
    fn read_data_as_interface_method_ref(reader: &mut ByteReader, index: u16) -> (r: Result<ConstantPoolInfo, DecodeError>)
        requires
            old(reader).wf(),
        ensures
            final(reader).wf(),
            final(reader).same_source(old(reader)),
            agrees_view(
                r,
                final(reader).spec_pos(),
                parse_constant_body(
                    old(reader).spec_data(),
                    old(reader).spec_limit(),
                    old(reader).spec_pos(),
                    index,
                    Tag::ConstantInterfaceMethodRef,
                ),
            ),
    {
        let class_index = reader.read_u16()?;
        let name_and_type_index = reader.read_u16()?;
        Ok(ConstantPoolInfo::InterfaceMethodRef(ConstantInterfaceMethodRefInfo { constant_pool_index: index, class_index, name_and_type_index }))
    }

    /// Read the data blob as a NameAndType constant pool entry
    fn read_data_as_name_and_type(reader: &mut ByteReader, index: u16) -> (r: Result<ConstantPoolInfo, DecodeError>)
        requires
            old(reader).wf(),
        ensures
            final(reader).wf(),
            final(reader).same_source(old(reader)),
            agrees_view(
                r,
                final(reader).spec_pos(),
                parse_constant_body(
                    old(reader).spec_data(),
                    old(reader).spec_limit(),
                    old(reader).spec_pos(),
                    index,
                    Tag::ConstantNameAndType,
                ),
            ),
    {
        let name_index = reader.read_u16()?;
        let descriptor_index = reader.read_u16()?;
        Ok(ConstantPoolInfo::NameAndType(ConstantNameAndTypeInfo { constant_pool_index: index, name_index, descriptor_index }))
    }

    /// Read the data blob as a MethodHandle constant pool entry
    fn read_data_as_method_handle(reader: &mut ByteReader, index: u16) -> (r: Result<ConstantPoolInfo, DecodeError>)
        requires
            old(reader).wf(),
        ensures
            final(reader).wf(),
            final(reader).same_source(old(reader)),
            agrees_view(
                r,
                final(reader).spec_pos(),
                parse_constant_body(
                    old(reader).spec_data(),
                    old(reader).spec_limit(),
                    old(reader).spec_pos(),
                    index,
                    Tag::ConstantMethodHandle,
                ),
            ),
    {
        let kind_offset = reader.position();
        let kind = reader.read_u8()?;
        match MethodHandleType::from_kind(kind) {
            None => Err(DecodeError { kind: ErrorKind::MalformedTag, offset: kind_offset }),
            Some(reference_kind) => {
                let reference_index = reader.read_u16()?;
                Ok(
                    ConstantPoolInfo::MethodHandle(
                        ConstantMethodHandleInfo { constant_pool_index: index, reference_kind, reference_index },
                    ),
                )
            },
        }
    }

    /// Read the data blob as a MethodType constant pool entry
    fn read_data_as_method_type(reader: &mut ByteReader, index: u16) -> (r: Result<ConstantPoolInfo, DecodeError>)
        requires
            old(reader).wf(),
        ensures
            final(reader).wf(),
            final(reader).same_source(old(reader)),
            agrees_view(
                r,
                final(reader).spec_pos(),
                parse_constant_body(
                    old(reader).spec_data(),
                    old(reader).spec_limit(),
                    old(reader).spec_pos(),
                    index,
                    Tag::ConstantMethodType,
                ),
            ),
    {
        let descriptor_index = reader.read_u16()?;
        Ok(ConstantPoolInfo::MethodType(ConstantMethodTypeInfo { constant_pool_index: index, descriptor_index }))
    }

    /// Read the data blob as a Dynamic constant pool entry
    fn read_data_as_dynamic(reader: &mut ByteReader, index: u16) -> (r: Result<ConstantPoolInfo, DecodeError>)
        requires
            old(reader).wf(),
        ensures
            final(reader).wf(),
            final(reader).same_source(old(reader)),
            agrees_view(
                r,
                final(reader).spec_pos(),
                parse_constant_body(
                    old(reader).spec_data(),
                    old(reader).spec_limit(),
                    old(reader).spec_pos(),
                    index,
                    Tag::ConstantDynamic,
                ),
            ),
    {
        let bootstrap_method_attr_index = reader.read_u16()?;
        let name_and_type_index = reader.read_u16()?;
        Ok(ConstantPoolInfo::Dynamic(ConstantDynamicInfo { constant_pool_index: index, bootstrap_method_attr_index, name_and_type_index }))
    }

    /// Read the data blob as an InvokeDynamic constant pool entry
    fn read_data_as_invoke_dynamic(reader: &mut ByteReader, index: u16) -> (r: Result<ConstantPoolInfo, DecodeError>)
        requires
            old(reader).wf(),
        ensures
            final(reader).wf(),
            final(reader).same_source(old(reader)),
            agrees_view(
                r,
                final(reader).spec_pos(),
                parse_constant_body(
                    old(reader).spec_data(),
                    old(reader).spec_limit(),
                    old(reader).spec_pos(),
                    index,
                    Tag::ConstantInvokeDynamic,
                ),
            ),
    {
        let bootstrap_method_attr_index = reader.read_u16()?;
        let name_and_type_index = reader.read_u16()?;
        Ok(ConstantPoolInfo::InvokeDynamic(ConstantInvokeDynamicInfo { constant_pool_index: index, bootstrap_method_attr_index, name_and_type_index }))
    }

    /// Read the data blob as a Module constant pool entry
    fn read_data_as_module(reader: &mut ByteReader, index: u16) -> (r: Result<ConstantPoolInfo, DecodeError>)
        requires
            old(reader).wf(),
        ensures
            final(reader).wf(),
            final(reader).same_source(old(reader)),
            agrees_view(
                r,
                final(reader).spec_pos(),
                parse_constant_body(
                    old(reader).spec_data(),
                    old(reader).spec_limit(),
                    old(reader).spec_pos(),
                    index,
                    Tag::ConstantModule,
                ),
            ),
    {
        let name_index = reader.read_u16()?;
        Ok(ConstantPoolInfo::Module(ConstantModuleInfo { constant_pool_index: index, name_index }))
    }

    /// Read the data blob as a Package constant pool entry
    fn read_data_as_package(reader: &mut ByteReader, index: u16) -> (r: Result<ConstantPoolInfo, DecodeError>)
        requires
            old(reader).wf(),
        ensures
            final(reader).wf(),
            final(reader).same_source(old(reader)),
            agrees_view(
                r,
                final(reader).spec_pos(),
                parse_constant_body(
                    old(reader).spec_data(),
                    old(reader).spec_limit(),
                    old(reader).spec_pos(),
                    index,
                    Tag::ConstantPackage,
                ),
            ),
    {
        let name_index = reader.read_u16()?;
        Ok(ConstantPoolInfo::Package(ConstantPackageInfo { constant_pool_index: index, name_index }))
    }

    /// Cast to a UTF-8 constant pool entry
    pub fn try_cast_into_utf8(&self) -> (r: Option<&ConstantUtf8Info>)
        ensures
            match r {
                Some(x) => *self == ConstantPoolInfo::Utf8(*x),
                None => !(self is Utf8),
            },
    {
        match self {
            ConstantPoolInfo::Utf8(x) => Some(x),
            _ => None,
        }
    }

    /// Cast to a integer constant pool entry
    pub fn try_cast_into_integer(&self) -> (r: Option<&ConstantIntegerInfo>)
        ensures
            match r {
                Some(x) => *self == ConstantPoolInfo::Integer(*x),
                None => !(self is Integer),
            },
    {
        match self {
            ConstantPoolInfo::Integer(x) => Some(x),
            _ => None,
        }
    }

    /// Cast to a float constant pool entry
    pub fn try_cast_into_float(&self) -> (r: Option<&ConstantFloatInfo>)
        ensures
            match r {
                Some(x) => *self == ConstantPoolInfo::Float(*x),
                None => !(self is Float),
            },
    {
        match self {
            ConstantPoolInfo::Float(x) => Some(x),
            _ => None,
        }
    }

    /// Cast to a long constant pool entry
    pub fn try_cast_into_long(&self) -> (r: Option<&ConstantLongInfo>)
        ensures
            match r {
                Some(x) => *self == ConstantPoolInfo::Long(*x),
                None => !(self is Long),
            },
    {
        match self {
            ConstantPoolInfo::Long(x) => Some(x),
            _ => None,
        }
    }

    /// Cast to a double constant pool entry
    pub fn try_cast_into_double(&self) -> (r: Option<&ConstantDoubleInfo>)
        ensures
            match r {
                Some(x) => *self == ConstantPoolInfo::Double(*x),
                None => !(self is Double),
            },
    {
        match self {
            ConstantPoolInfo::Double(x) => Some(x),
            _ => None,
        }
    }

    /// Cast to a class constant pool entry
    pub fn try_cast_into_class(&self) -> (r: Option<&ConstantClassInfo>)
        ensures
            match r {
                Some(x) => *self == ConstantPoolInfo::Class(*x),
                None => !(self is Class),
            },
    {
        match self {
            ConstantPoolInfo::Class(x) => Some(x),
            _ => None,
        }
    }

    /// Cast to a string constant pool entry
    pub fn try_cast_into_string(&self) -> (r: Option<&ConstantStringInfo>)
        ensures
            match r {
                Some(x) => *self == ConstantPoolInfo::String(*x),
                None => !(self is String),
            },
    {
        match self {
            ConstantPoolInfo::String(x) => Some(x),
            _ => None,
        }
    }

    /// Cast to a field ref constant pool entry
    pub fn try_cast_into_field_ref(&self) -> (r: Option<&ConstantFieldRefInfo>)
        ensures
            match r {
                Some(x) => *self == ConstantPoolInfo::FieldRef(*x),
                None => !(self is FieldRef),
            },
    {
        match self {
            ConstantPoolInfo::FieldRef(x) => Some(x),
            _ => None,
        }
    }

    /// Cast to a method ref constant pool entry
    pub fn try_cast_into_method_ref(&self) -> (r: Option<&ConstantMethodRefInfo>)
        ensures
            match r {
                Some(x) => *self == ConstantPoolInfo::MethodRef(*x),
                None => !(self is MethodRef),
            },
    {
        match self {
            ConstantPoolInfo::MethodRef(x) => Some(x),
            _ => None,
        }
    }

    /// Cast to a interface method ref constant pool entry
    pub fn try_cast_into_interface_method_ref(&self) -> (r: Option<&ConstantInterfaceMethodRefInfo>)
        ensures
            match r {
                Some(x) => *self == ConstantPoolInfo::InterfaceMethodRef(*x),
                None => !(self is InterfaceMethodRef),
            },
    {
        match self {
            ConstantPoolInfo::InterfaceMethodRef(x) => Some(x),
            _ => None,
        }
    }

    /// Cast to a name and type constant pool entry
    pub fn try_cast_into_name_and_type(&self) -> (r: Option<&ConstantNameAndTypeInfo>)
        ensures
            match r {
                Some(x) => *self == ConstantPoolInfo::NameAndType(*x),
                None => !(self is NameAndType),
            },
    {
        match self {
            ConstantPoolInfo::NameAndType(x) => Some(x),
            _ => None,
        }
    }

    /// Cast to a method handle constant pool entry
    pub fn try_cast_into_method_handle(&self) -> (r: Option<&ConstantMethodHandleInfo>)
        ensures
            match r {
                Some(x) => *self == ConstantPoolInfo::MethodHandle(*x),
                None => !(self is MethodHandle),
            },
    {
        match self {
            ConstantPoolInfo::MethodHandle(x) => Some(x),
            _ => None,
        }
    }

    /// Cast to a method type constant pool entry
    pub fn try_cast_into_method_type(&self) -> (r: Option<&ConstantMethodTypeInfo>)
        ensures
            match r {
                Some(x) => *self == ConstantPoolInfo::MethodType(*x),
                None => !(self is MethodType),
            },
    {
        match self {
            ConstantPoolInfo::MethodType(x) => Some(x),
            _ => None,
        }
    }

    /// Cast to a dynamic constant pool entry
    pub fn try_cast_into_dynamic(&self) -> (r: Option<&ConstantDynamicInfo>)
        ensures
            match r {
                Some(x) => *self == ConstantPoolInfo::Dynamic(*x),
                None => !(self is Dynamic),
            },
    {
        match self {
            ConstantPoolInfo::Dynamic(x) => Some(x),
            _ => None,
        }
    }

    /// Cast to a invoke dynamic constant pool entry
    pub fn try_cast_into_invoke_dynamic(&self) -> (r: Option<&ConstantInvokeDynamicInfo>)
        ensures
            match r {
                Some(x) => *self == ConstantPoolInfo::InvokeDynamic(*x),
                None => !(self is InvokeDynamic),
            },
    {
        match self {
            ConstantPoolInfo::InvokeDynamic(x) => Some(x),
            _ => None,
        }
    }

    /// Cast to a module constant pool entry
    pub fn try_cast_into_module(&self) -> (r: Option<&ConstantModuleInfo>)
        ensures
            match r {
                Some(x) => *self == ConstantPoolInfo::Module(*x),
                None => !(self is Module),
            },
    {
        match self {
            ConstantPoolInfo::Module(x) => Some(x),
            _ => None,
        }
    }

    /// Cast to a package constant pool entry
    pub fn try_cast_into_package(&self) -> (r: Option<&ConstantPackageInfo>)
        ensures
            match r {
                Some(x) => *self == ConstantPoolInfo::Package(*x),
                None => !(self is Package),
            },
    {
        match self {
            ConstantPoolInfo::Package(x) => Some(x),
            _ => None,
        }
    }
}

/// The constant pool, keyed by 1-based index
#[derive(Debug)]
pub struct ConstantPool {
    entries: BTreeMap<u16, ConstantPoolInfo>,
}

impl View for ConstantPool {
    type V = Map<u16, ConstantModel>;

    closed spec fn view(&self) -> Map<u16, ConstantModel> {
        self.entries@.map_values(|c: ConstantPoolInfo| c@)
    }
}

impl ConstantPool {
    /// An empty pool
    pub fn new() -> (r: ConstantPool)
        ensures
            r@ == Map::<u16, ConstantModel>::empty(),
    {
        let r = ConstantPool { entries: BTreeMap::new() };
        assert(r@ =~= Map::<u16, ConstantModel>::empty());
        r
    }

    /// Stores `info` under `index`
    fn insert(&mut self, index: u16, info: ConstantPoolInfo)
        ensures
            final(self)@ == old(self)@.insert(index, info@),
    {
        self.entries.insert(index, info);
        assert(self@ =~= old(self)@.insert(index, info@));
    }

    /// The constant at `index`, if there is one
    pub fn get(&self, index: u16) -> (r: Option<&ConstantPoolInfo>)
        ensures
            match r {
                Some(c) => self@.contains_key(index) && self@[index] == c@,
                None => !self@.contains_key(index),
            },
    {
        self.entries.get(&index)
    }

    /// The UTF-8 constant at `index`, if there is one
    pub fn as_utf8(&self, index: u16) -> (r: Option<&ConstantUtf8Info>)
        ensures
            match r {
                Some(c) => self@.contains_key(index) && self@[index] == ConstantModel::Utf8(c@),
                None => !(self@.contains_key(index) && self@[index] is Utf8),
            },
    {
        match self.get(index) {
            Some(c) => c.try_cast_into_utf8(),
            None => None,
        }
    }

    /// The class constant at `index`, if there is one
    pub fn as_class(&self, index: u16) -> (r: Option<&ConstantClassInfo>)
        ensures
            match r {
                Some(c) => self@.contains_key(index) && self@[index] == ConstantModel::Class(*c),
                None => !(self@.contains_key(index) && self@[index] is Class),
            },
    {
        match self.get(index) {
            Some(c) => c.try_cast_into_class(),
            None => None,
        }
    }

    /// The number of constants in the pool
    pub fn len(&self) -> (r: usize)
        ensures
            r == self@.len(),
    {
        assert(self@.dom() =~= self.entries@.dom());
        self.entries.len()
    }

    /// The constants, in ascending index order
    pub fn entries(&self) -> (r: &BTreeMap<u16, ConstantPoolInfo>)
        ensures
            r@.map_values(|c: ConstantPoolInfo| c@) == self@,
    {
        &self.entries
    }

    /// Read the entire constant pool
    pub fn read(reader: &mut ByteReader) -> (r: Result<ConstantPool, DecodeError>)
        requires
            old(reader).wf(),
        ensures
            final(reader).wf(),
            final(reader).same_source(old(reader)),
            agrees_view(
                r,
                final(reader).spec_pos(),
                parse_pool(old(reader).spec_data(), old(reader).spec_limit(), old(reader).spec_pos()),
            ),
    {
        let count = reader.read_u16()?;
        let mut pool = ConstantPool::new();
        // The constant pool starts indexing at one
        let mut index: u32 = 1;
        while index < count as u32
            invariant
                reader.wf(),
                reader.same_source(old(reader)),
                1 <= index <= count as u32 + 1,
                parse_pool(old(reader).spec_data(), old(reader).spec_limit(), old(reader).spec_pos())
                    == parse_pool_from(
                    reader.spec_data(),
                    reader.spec_limit(),
                    reader.spec_pos(),
                    index as int,
                    count as int,
                    pool@,
                ),
            decreases count as u32 + 1 - index,
        {
            let info = ConstantPoolInfo::new(reader, index as u16)?;
            // Long and double occupy two indices
            let width: u32 = match info {
                ConstantPoolInfo::Long(_) | ConstantPoolInfo::Double(_) => 2,
                _ => 1,
            };
            pool.insert(index as u16, info);
            index = index + width;
        }
        Ok(pool)
    }
}


impl ConstantModel {
    /// The pool index that this constant records as its own.
    pub open spec fn index(self) -> u16 {
        match self {
            ConstantModel::Utf8(x) => x.constant_pool_index,
            ConstantModel::Integer(x) => x.constant_pool_index,
            ConstantModel::Float(x) => x.constant_pool_index,
            ConstantModel::Long(x) => x.constant_pool_index,
            ConstantModel::Double(x) => x.constant_pool_index,
            ConstantModel::Class(x) => x.constant_pool_index,
            ConstantModel::String(x) => x.constant_pool_index,
            ConstantModel::FieldRef(x) => x.constant_pool_index,
            ConstantModel::MethodRef(x) => x.constant_pool_index,
            ConstantModel::InterfaceMethodRef(x) => x.constant_pool_index,
            ConstantModel::NameAndType(x) => x.constant_pool_index,
            ConstantModel::MethodHandle(x) => x.constant_pool_index,
            ConstantModel::MethodType(x) => x.constant_pool_index,
            ConstantModel::Dynamic(x) => x.constant_pool_index,
            ConstantModel::InvokeDynamic(x) => x.constant_pool_index,
            ConstantModel::Module(x) => x.constant_pool_index,
            ConstantModel::Package(x) => x.constant_pool_index,
        }
    }
}

/// Every constant records the index under which it is stored.
pub open spec fn pool_indexed(m: Map<u16, ConstantModel>) -> bool {
    forall|k: u16| #[trigger] m.contains_key(k) ==> m[k].index() == k
}

/// After a Long or a Double comes an index that holds nothing.
pub open spec fn wide_slots_free(m: Map<u16, ConstantModel>) -> bool {
    forall|k: u16|
        #[trigger] m.contains_key(k) && m[k].width() == 2 ==> k < 0xFFFF && !m.contains_key((k + 1) as u16)
}

/// A constant read for index `index` records that index.
pub proof fn lemma_constant_index(d: Seq<u8>, e: int, p: int, index: u16)
    requires
        parse_constant(d, e, p, index) is Ok,
    ensures
        parse_constant(d, e, p, index)->Ok_0.0.index() == index,
{
}

proof fn lemma_pool_from_shape(
    d: Seq<u8>,
    e: int,
    p: int,
    i: int,
    count: int,
    acc: Map<u16, ConstantModel>,
)
    requires
        1 <= i <= count + 1,
        count <= 0xFFFF,
        pool_indexed(acc),
        forall|k: u16| #[trigger] acc.contains_key(k) ==> (k as int) < i,
        forall|k: u16|
            #[trigger] acc.contains_key(k) && acc[k].width() == 2 ==> (k as int) + 1 < i
                && !acc.contains_key((k + 1) as u16),
        parse_pool_from(d, e, p, i, count, acc) is Ok,
    ensures
        pool_indexed(parse_pool_from(d, e, p, i, count, acc)->Ok_0.0),
        wide_slots_free(parse_pool_from(d, e, p, i, count, acc)->Ok_0.0),
    decreases count + 1 - i,
{
    if i < count {
        let (c, q) = parse_constant(d, e, p, i as u16)->Ok_0;
        lemma_constant_index(d, e, p, i as u16);
        let acc2 = acc.insert(i as u16, c);
        assert forall|k: u16| #[trigger] acc2.contains_key(k) implies (k as int) < i + c.width() by {}
        assert forall|k: u16| #[trigger] acc2.contains_key(k) && acc2[k].width() == 2 implies (k as int) + 1 < i
            + c.width() && !acc2.contains_key((k + 1) as u16) by {
            if k != i as u16 {
                assert(acc.contains_key(k));
            }
        }
        lemma_pool_from_shape(d, e, q, i + c.width(), count, acc2);
    }
}

/// In a decoded pool every constant is stored under the index it records, and
/// the index after a Long or a Double is absent.
pub proof fn lemma_pool_shape(d: Seq<u8>, e: int, p: int)
    requires
        parse_pool(d, e, p) is Ok,
    ensures
        pool_indexed(parse_pool(d, e, p)->Ok_0.0),
        wide_slots_free(parse_pool(d, e, p)->Ok_0.0),
{
    let count = u16_at(d, p);
    lemma_pool_from_shape(d, e, p + 2, 1, count as int, Map::empty());
}

/// A Long or a Double at index `k` of a decoded pool leaves index `k + 1`
/// empty.
pub proof fn lemma_wide_constant_reserves_next(d: Seq<u8>, e: int, p: int, k: u16)
    requires
        parse_pool(d, e, p) is Ok,
        parse_pool(d, e, p)->Ok_0.0.contains_key(k),
        parse_pool(d, e, p)->Ok_0.0[k] is Long || parse_pool(d, e, p)->Ok_0.0[k] is Double,
    ensures
        k < 0xFFFF,
        !parse_pool(d, e, p)->Ok_0.0.contains_key((k + 1) as u16),
{
    lemma_pool_shape(d, e, p);
}

/// A pool count of one gives the empty pool, and reading goes on right after
/// the count.
pub proof fn lemma_empty_pool(d: Seq<u8>, e: int, p: int)
    requires
        0 <= p,
        p + 2 <= e,
        u16_at(d, p) == 1,
    ensures
        parse_pool(d, e, p) == Ok::<(Map<u16, ConstantModel>, int), DecodeError>((Map::empty(), p + 2)),
{
}

} // verus!
