//! The class file as a whole: magic, versions, constant pool, access flags,
//! this and super class, interfaces, fields, methods and attributes, in that
//! order.

use vstd::prelude::*;
use crate::access_flags::{class_flags_of, ClassAccessFlags, Flags};
use crate::attribute::{
    agrees_views, attribute_tree_named, cons, lemma_attributes_named, lemma_prepend_cons, lemma_prepend_empty, parse_attributes, prepend,
    read_attributes, views, AttributeInfo, AttributeModel,
};
use crate::byte_reader::{agrees, agrees_view, take_u16, take_u32, u16_at, u32_at, ByteReader, Parsed};
use crate::constant_pool::{
    lemma_pool_shape, parse_pool, pool_indexed, ConstantClassInfo, ConstantModel, ConstantPool,
};
use crate::error::{error_at, DecodeError, ErrorKind};
use crate::field::{lemma_fields_attributes_named, parse_fields, read_fields, FieldInfo, FieldModel};
use crate::method::{lemma_methods_attributes_named, parse_methods, read_methods, MethodInfo, MethodModel};

verus! {

/// The first four bytes of every class file
pub const MAGIC_NUMBER: u32 = 0xCAFEBABE;

/// JVM class file representation
#[derive(Debug)]
pub struct ClassFile {
    /// Magic number - always 0xCAFEBABE
    pub magic: u32,
    /// Bytecode minor version
    pub minor_version: u16,
    /// Bytecode major version
    pub major_version: u16,
    /// Constant pool
    pub constant_pool: ConstantPool,
    /// Class access and property modifiers
    pub access_flags: Vec<ClassAccessFlags>,
    /// Represents the class defined by this class file
    pub this_class: ConstantClassInfo,
    /// Represents the direct superclass of the class defined by this class file
    pub super_class: Option<ConstantClassInfo>,
    /// Represents all direct superinterfaces of this class or interface type
    pub interfaces: Vec<ConstantClassInfo>,
    /// Represents all fields declared by this class or interface type
    pub fields: Vec<FieldInfo>,
    /// Represents all methods
    pub methods: Vec<MethodInfo>,
    /// Represents all class attributes
    pub attributes: Vec<AttributeInfo>,
}

/// A class file as a ghost value.
pub ghost struct ClassFileModel {
    pub magic: u32,
    pub minor_version: u16,
    pub major_version: u16,
    pub constant_pool: Map<u16, ConstantModel>,
    pub access_flags: Seq<ClassAccessFlags>,
    pub this_class: ConstantClassInfo,
    pub super_class: Option<ConstantClassInfo>,
    pub interfaces: Seq<ConstantClassInfo>,
    pub fields: Seq<FieldModel>,
    pub methods: Seq<MethodModel>,
    pub attributes: Seq<AttributeModel>,
}

impl View for ClassFile {
    type V = ClassFileModel;

    open spec fn view(&self) -> ClassFileModel {
        ClassFileModel {
            magic: self.magic,
            minor_version: self.minor_version,
            major_version: self.major_version,
            constant_pool: self.constant_pool@,
            access_flags: self.access_flags@,
            this_class: self.this_class,
            super_class: self.super_class,
            interfaces: self.interfaces@,
            fields: views(self.fields@),
            methods: views(self.methods@),
            attributes: views(self.attributes@),
        }
    }
}

/// The class constant at `index`, if there is one.
pub open spec fn class_at(pool: Map<u16, ConstantModel>, index: u16) -> Option<ConstantClassInfo> {
    if pool.contains_key(index) && pool[index] is Class {
        Some(pool[index]->Class_0)
    } else {
        None
    }
}

/// There is a UTF-8 constant at `index`.
pub open spec fn is_utf8_at(pool: Map<u16, ConstantModel>, index: u16) -> bool {
    pool.contains_key(index) && pool[index] is Utf8
}

/// A class reference at `p`: an index that must resolve to a class constant.
pub open spec fn take_class_ref(d: Seq<u8>, e: int, p: int, pool: Map<u16, ConstantModel>) -> Parsed<
    ConstantClassInfo,
> {
    match take_u16(d, e, p) {
        Err(err) => Err(err),
        Ok((index, q)) => match class_at(pool, index) {
            None => Err(error_at(ErrorKind::BadPoolRef, p)),
            Some(c) => Ok((c, q)),
        },
    }
}

/// The super class reference at `p`: zero for none, else an index that must
/// resolve to a class constant.
pub open spec fn take_super_ref(d: Seq<u8>, e: int, p: int, pool: Map<u16, ConstantModel>) -> Parsed<
    Option<ConstantClassInfo>,
> {
    match take_u16(d, e, p) {
        Err(err) => Err(err),
        Ok((index, q)) => if index == 0 {
            Ok((None, q))
        } else {
            match class_at(pool, index) {
                None => Err(error_at(ErrorKind::BadPoolRef, p)),
                Some(c) => Ok((Some(c), q)),
            }
        },
    }
}

/// `n` interface references at `p`.
pub open spec fn parse_interfaces(d: Seq<u8>, e: int, p: int, n: int, pool: Map<u16, ConstantModel>) -> Parsed<
    Seq<ConstantClassInfo>,
>
    decreases n,
{
    if n <= 0 {
        Ok((Seq::empty(), p))
    } else {
        match take_class_ref(d, e, p, pool) {
            Err(err) => Err(err),
            Ok((c, q)) => cons(c, parse_interfaces(d, e, q, n - 1, pool)),
        }
    }
}

/// The references that the class holds from its root resolve: the names of
/// this class, of its super class and of its interfaces, and the names and
/// descriptors of its fields and methods, to UTF-8 constants. The names of
/// attributes, at every depth, are checked while they are read (an unresolved
/// one is a `BadAttributeName`); the indices inside attribute payloads are kept
/// as read and are not checked here.
pub open spec fn references_resolve(m: ClassFileModel) -> bool {
    let pool = m.constant_pool;
    &&& is_utf8_at(pool, m.this_class.name_index)
    &&& (m.super_class matches Some(c) ==> is_utf8_at(pool, c.name_index))
    &&& forall|i: int| 0 <= i < m.interfaces.len() ==> is_utf8_at(pool, #[trigger] m.interfaces[i].name_index)
    &&& forall|i: int|
        0 <= i < m.fields.len() ==> #[trigger] member_resolves(pool, m.fields[i].name_index, m.fields[i].descriptor_index)
    &&& forall|i: int|
        0 <= i < m.methods.len() ==> #[trigger] member_resolves(pool, m.methods[i].name_index, m.methods[i].descriptor_index)
}

/// The name and the descriptor of a field or method are UTF-8 constants.
pub open spec fn member_resolves(pool: Map<u16, ConstantModel>, name_index: u16, descriptor_index: u16) -> bool {
    is_utf8_at(pool, name_index) && is_utf8_at(pool, descriptor_index)
}

/// A class file at `p`.
pub open spec fn parse_class_file(d: Seq<u8>, e: int, p: int) -> Parsed<ClassFileModel> {
    match take_u32(d, e, p) {
        Err(err) => Err(err),
        Ok((magic, p0)) => if magic != MAGIC_NUMBER {
            Err(error_at(ErrorKind::BadMagic, p))
        } else {
            match take_u16(d, e, p0) {
                Err(err) => Err(err),
                Ok((minor_version, q1)) => match take_u16(d, e, q1) {
                    Err(err) => Err(err),
                    Ok((major_version, q2)) => match parse_pool(d, e, q2) {
                        Err(err) => Err(err),
                        Ok((constant_pool, q3)) => match take_u16(d, e, q3) {
                            Err(err) => Err(err),
                            Ok((mask, q4)) => match take_class_ref(d, e, q4, constant_pool) {
                                Err(err) => Err(err),
                                Ok((this_class, q5)) => match take_super_ref(d, e, q5, constant_pool) {
                                    Err(err) => Err(err),
                                    Ok((super_class, q6)) => match take_u16(d, e, q6) {
                                        Err(err) => Err(err),
                                        Ok((interfaces_count, q7)) => match parse_interfaces(d, e, q7, interfaces_count as int, constant_pool) {
                                            Err(err) => Err(err),
                                            Ok((interfaces, q8)) => match take_u16(d, e, q8) {
                                                Err(err) => Err(err),
                                                Ok((fields_count, q9)) => match parse_fields(d, e, q9, fields_count as int, constant_pool) {
                                                    Err(err) => Err(err),
                                                    Ok((fields, q10)) => match take_u16(d, e, q10) {
                                                        Err(err) => Err(err),
                                                        Ok((methods_count, q11)) => match parse_methods(d, e, q11, methods_count as int, constant_pool) {
                                                            Err(err) => Err(err),
                                                            Ok((methods, q12)) => match take_u16(d, e, q12) {
                                                                Err(err) => Err(err),
                                                                Ok((attributes_count, q13)) => match parse_attributes(d, e, q13, attributes_count as int, constant_pool) {
                                                                    Err(err) => Err(err),
                                                                    Ok((attributes, q14)) => {
                                                                        let m = ClassFileModel {
                                                                            magic,
                                                                            minor_version,
                                                                            major_version,
                                                                            constant_pool,
                                                                            access_flags: class_flags_of(mask),
                                                                            this_class,
                                                                            super_class,
                                                                            interfaces,
                                                                            fields,
                                                                            methods,
                                                                            attributes,
                                                                        };
                                                                        if references_resolve(m) {
                                                                            Ok((m, q14))
                                                                        } else {
                                                                            Err(error_at(ErrorKind::DanglingRef, q14))
                                                                        }
                                                                    },
                                                                },
                                                            },
                                                        },
                                                    },
                                                },
                                            },
                                        },
                                    },
                                },
                            },
                        },
                    },
                },
            }
        },
    }
}

/// The class file that the bytes `d` hold, from their start; bytes after it
/// are not read.
pub open spec fn decode(d: Seq<u8>) -> Result<ClassFileModel, DecodeError> {
    match parse_class_file(d, d.len() as int, 0) {
        Ok((m, _)) => Ok(m),
        Err(err) => Err(err),
    }
}

/// Reads a class reference
fn read_class_ref(reader: &mut ByteReader, constant_pool: &ConstantPool) -> (r: Result<ConstantClassInfo, DecodeError>)
    requires
        old(reader).wf(),
    ensures
        final(reader).wf(),
        final(reader).same_source(old(reader)),
        agrees(r, final(reader).spec_pos(), take_class_ref(old(reader).spec_data(), old(reader).spec_limit(), old(reader).spec_pos(), constant_pool@)),
{
    let offset = reader.position();
    let index = reader.read_u16()?;
    match constant_pool.as_class(index) {
        Some(c) => Ok(*c),
        None => Err(DecodeError { kind: ErrorKind::BadPoolRef, offset }),
    }
}

/// There is a UTF-8 constant at `index`
fn utf8_at(constant_pool: &ConstantPool, index: u16) -> (r: bool)
    ensures
        r == is_utf8_at(constant_pool@, index),
{
    constant_pool.as_utf8(index).is_some()
}


/// A class reference that reads resolves, through a pool whose constants
/// record their own indices, at the index it records.
proof fn lemma_class_ref_indexed(d: Seq<u8>, e: int, p: int, pool: Map<u16, ConstantModel>)
    requires
        pool_indexed(pool),
        take_class_ref(d, e, p, pool) is Ok,
    ensures
        class_at(pool, take_class_ref(d, e, p, pool)->Ok_0.0.constant_pool_index) == Some(
            take_class_ref(d, e, p, pool)->Ok_0.0,
        ),
{
    let index = u16_at(d, p);
    assert(pool.contains_key(index));
}

proof fn lemma_super_ref_indexed(d: Seq<u8>, e: int, p: int, pool: Map<u16, ConstantModel>)
    requires
        pool_indexed(pool),
        take_super_ref(d, e, p, pool) is Ok,
    ensures
        take_super_ref(d, e, p, pool)->Ok_0.0 matches Some(c) ==> class_at(pool, c.constant_pool_index) == Some(c),
{
    let index = u16_at(d, p);
    if index != 0 {
        assert(pool.contains_key(index));
    }
}

proof fn lemma_interfaces_indexed(d: Seq<u8>, e: int, p: int, n: int, pool: Map<u16, ConstantModel>)
    requires
        pool_indexed(pool),
        parse_interfaces(d, e, p, n, pool) is Ok,
    ensures
        forall|i: int|
            0 <= i < parse_interfaces(d, e, p, n, pool)->Ok_0.0.len() ==> class_at(
                pool,
                (#[trigger] parse_interfaces(d, e, p, n, pool)->Ok_0.0[i]).constant_pool_index,
            ) == Some(parse_interfaces(d, e, p, n, pool)->Ok_0.0[i]),
    decreases n,
{
    if n > 0 {
        let (c, q) = take_class_ref(d, e, p, pool)->Ok_0;
        lemma_class_ref_indexed(d, e, p, pool);
        lemma_interfaces_indexed(d, e, q, n - 1, pool);
        let rest = parse_interfaces(d, e, q, n - 1, pool)->Ok_0.0;
        let all = parse_interfaces(d, e, p, n, pool)->Ok_0.0;
        assert(all == seq![c] + rest);
        assert forall|i: int| 0 <= i < all.len() implies class_at(pool, (#[trigger] all[i]).constant_pool_index)
            == Some(all[i]) by {
            if i > 0 {
                assert(all[i] == rest[i - 1]);
            }
        }
    }
}

/// Every bytes that decode begin with the magic number, which the decoded
/// class holds.
pub proof fn lemma_decoded_magic(d: Seq<u8>)
    requires
        decode(d) is Ok,
    ensures
        d.len() >= 4,
        u32_at(d, 0) == MAGIC_NUMBER,
        decode(d)->Ok_0.magic == MAGIC_NUMBER,
{
}

/// In a decoded class, this class, the super class when there is one, and
/// every interface are class constants stored at the pool indices they
/// record; the names and descriptors of fields and methods, and the names of
/// the attributes of the class, of its fields and of its methods, and of all
/// the attributes nested in those, are UTF-8 constants.
pub proof fn lemma_decoded_references(d: Seq<u8>)
    requires
        decode(d) is Ok,
    ensures
        ({
            let m = decode(d)->Ok_0;
            &&& class_at(m.constant_pool, m.this_class.constant_pool_index) == Some(m.this_class)
            &&& m.super_class matches Some(c) ==> class_at(m.constant_pool, c.constant_pool_index) == Some(c)
            &&& forall|i: int|
                0 <= i < m.interfaces.len() ==> class_at(m.constant_pool, (#[trigger] m.interfaces[i]).constant_pool_index)
                    == Some(m.interfaces[i])
            &&& forall|i: int|
                0 <= i < m.fields.len() ==> #[trigger] member_resolves(
                    m.constant_pool,
                    m.fields[i].name_index,
                    m.fields[i].descriptor_index,
                )
            &&& forall|i: int|
                0 <= i < m.methods.len() ==> #[trigger] member_resolves(
                    m.constant_pool,
                    m.methods[i].name_index,
                    m.methods[i].descriptor_index,
                )
            &&& forall|i: int|
                0 <= i < m.attributes.len() ==> attribute_tree_named(#[trigger] m.attributes[i], m.constant_pool)
            &&& forall|i: int, j: int|
                0 <= i < m.fields.len() && 0 <= j < m.fields[i].attributes.len() ==> attribute_tree_named(#[trigger] m.fields[i].attributes[j], m.constant_pool)
            &&& forall|i: int, j: int|
                0 <= i < m.methods.len() && 0 <= j < m.methods[i].attributes.len() ==> attribute_tree_named(#[trigger] m.methods[i].attributes[j], m.constant_pool)
        }),
{
    let e = d.len() as int;
    let (pool, q) = parse_pool(d, e, 8)->Ok_0;
    lemma_pool_shape(d, e, 8);
    lemma_class_ref_indexed(d, e, q + 2, pool);
    lemma_super_ref_indexed(d, e, q + 4, pool);
    let count = u16_at(d, q + 6);
    lemma_interfaces_indexed(d, e, q + 8, count as int, pool);
    let q_interfaces = parse_interfaces(d, e, q + 8, count as int, pool)->Ok_0.1;
    let fields_count = u16_at(d, q_interfaces);
    lemma_fields_attributes_named(d, e, q_interfaces + 2, fields_count as int, pool);
    let q_fields = parse_fields(d, e, q_interfaces + 2, fields_count as int, pool)->Ok_0.1;
    let methods_count = u16_at(d, q_fields);
    lemma_methods_attributes_named(d, e, q_fields + 2, methods_count as int, pool);
    let q_methods = parse_methods(d, e, q_fields + 2, methods_count as int, pool)->Ok_0.1;
    lemma_attributes_named(d, e, q_methods + 2, u16_at(d, q_methods) as int, pool);
}

/// Decoding depends on the bytes alone: equal bytes decode to equal classes,
/// or fail with equal errors.
pub proof fn lemma_decode_deterministic(a: Seq<u8>, b: Seq<u8>)
    requires
        a == b,
    ensures
        decode(a) == decode(b),
{
}

/// A super class index of zero gives no super class; a nonzero index that is
/// absent from the pool fails with `BadPoolRef` at the index's offset.
pub proof fn lemma_super_class_index(d: Seq<u8>, e: int, p: int, pool: Map<u16, ConstantModel>)
    requires
        0 <= p,
        p + 2 <= e,
    ensures
        u16_at(d, p) == 0 ==> take_super_ref(d, e, p, pool) == Ok::<(Option<ConstantClassInfo>, int), DecodeError>(
            (None, p + 2),
        ),
        u16_at(d, p) != 0 && !pool.contains_key(u16_at(d, p)) ==> take_super_ref(d, e, p, pool) == Err::<
            (Option<ConstantClassInfo>, int),
            DecodeError,
        >(error_at(ErrorKind::BadPoolRef, p)),
{
}

impl ClassFile {
    /// Create a new class file structure from a class file binary blob; a
    /// failed decode leaves the reader where it was
    pub fn new(reader: &mut ByteReader) -> (r: Result<ClassFile, DecodeError>)
        requires
            old(reader).wf(),
        ensures
            final(reader).wf(),
            final(reader).same_source(old(reader)),
            agrees_view(r, final(reader).spec_pos(), parse_class_file(old(reader).spec_data(), old(reader).spec_limit(), old(reader).spec_pos())),
            r is Err ==> final(reader).spec_pos() == old(reader).spec_pos(),
    {
        let start = reader.position();
        let r = Self::read_class(reader);
        if r.is_err() {
            reader.rewind(start);
        }
        r
    }

    /// Read the super class reference: none for index zero, else the class
    /// constant at that index, or `BadPoolRef` at the index's offset
    pub fn read_super_class(reader: &mut ByteReader, constant_pool: &ConstantPool) -> (r: Result<
        Option<ConstantClassInfo>,
        DecodeError,
    >)
        requires
            old(reader).wf(),
        ensures
            final(reader).wf(),
            final(reader).same_source(old(reader)),
            agrees(r, final(reader).spec_pos(), take_super_ref(old(reader).spec_data(), old(reader).spec_limit(), old(reader).spec_pos(), constant_pool@)),
    {
        let offset = reader.position();
        let index = reader.read_u16()?;
        if index == 0 {
            return Ok(None);
        }
        match constant_pool.as_class(index) {
            Some(c) => Ok(Some(*c)),
            None => Err(DecodeError { kind: ErrorKind::BadPoolRef, offset }),
        }
    }

    /// Reads the whole class file
    fn read_class(reader: &mut ByteReader) -> (r: Result<ClassFile, DecodeError>)
        requires
            old(reader).wf(),
        ensures
            final(reader).wf(),
            final(reader).same_source(old(reader)),
            agrees_view(r, final(reader).spec_pos(), parse_class_file(old(reader).spec_data(), old(reader).spec_limit(), old(reader).spec_pos())),
    {
        let start = reader.position();
        let magic = reader.read_u32()?;
        if magic != MAGIC_NUMBER {
            return Err(DecodeError { kind: ErrorKind::BadMagic, offset: start });
        }
        let minor_version = reader.read_u16()?;
        let major_version = reader.read_u16()?;
        let constant_pool = ConstantPool::read(reader)?;
        let mask = reader.read_u16()?;
        let access_flags = ClassAccessFlags::from_u16(mask);
        let this_class = read_class_ref(reader, &constant_pool)?;
        let super_class = Self::read_super_class(reader, &constant_pool)?;
        let interfaces_count = reader.read_u16()?;
        let interfaces = Self::read_interfaces(reader, &constant_pool, interfaces_count)?;
        let fields_count = reader.read_u16()?;
        let fields = read_fields(reader, &constant_pool, fields_count)?;
        let methods_count = reader.read_u16()?;
        let methods = read_methods(reader, &constant_pool, methods_count)?;
        let attributes_count = reader.read_u16()?;
        let attributes = read_attributes(reader, &constant_pool, attributes_count)?;
        let class = ClassFile {
            magic,
            minor_version,
            major_version,
            constant_pool,
            access_flags,
            this_class,
            super_class,
            interfaces,
            fields,
            methods,
            attributes,
        };
        if !class.references_resolve() {
            return Err(DecodeError { kind: ErrorKind::DanglingRef, offset: reader.position() });
        }
        Ok(class)
    }

    /// Decodes the class file that `data` holds from its start
    pub fn from_bytes(data: Vec<u8>) -> (r: Result<ClassFile, DecodeError>)
        ensures
            match decode(data@) {
                Ok(m) => r is Ok && r->Ok_0@ == m,
                Err(err) => r == Err::<ClassFile, DecodeError>(err),
            },
    {
        let mut reader = ByteReader::from_bytes(data);
        ClassFile::new(&mut reader)
    }

    /// Read `n` interface references
    fn read_interfaces(reader: &mut ByteReader, constant_pool: &ConstantPool, n: u16) -> (r: Result<
        Vec<ConstantClassInfo>,
        DecodeError,
    >)
        requires
            old(reader).wf(),
        ensures
            final(reader).wf(),
            final(reader).same_source(old(reader)),
            agrees_view(r, final(reader).spec_pos(), parse_interfaces(old(reader).spec_data(), old(reader).spec_limit(), old(reader).spec_pos(), n as int, constant_pool@)),
    {
        let mut interfaces: Vec<ConstantClassInfo> = Vec::new();
        let mut i: u16 = 0;
        proof {
            lemma_prepend_empty(parse_interfaces(old(reader).spec_data(), old(reader).spec_limit(), old(reader).spec_pos(), n as int, constant_pool@));
        }
        while i < n
            invariant
                reader.wf(),
                reader.same_source(old(reader)),
                i <= n,
                parse_interfaces(old(reader).spec_data(), old(reader).spec_limit(), old(reader).spec_pos(), n as int, constant_pool@) == prepend(
                    interfaces@,
                    parse_interfaces(reader.spec_data(), reader.spec_limit(), reader.spec_pos(), n - i, constant_pool@),
                ),
            decreases n - i,
        {
            let c = read_class_ref(reader, constant_pool)?;
            proof {
                lemma_prepend_cons(
                    interfaces@,
                    c,
                    parse_interfaces(reader.spec_data(), reader.spec_limit(), reader.spec_pos(), n - i - 1, constant_pool@),
                );
            }
            interfaces.push(c);
            i += 1;
        }
        proof {
            assert(interfaces@ + Seq::empty() =~= interfaces@);
        }
        Ok(interfaces)
    }

    /// Every reference that the class holds from its root resolves
    fn references_resolve(&self) -> (r: bool)
        ensures
            r == references_resolve(self@),
    {
        if !utf8_at(&self.constant_pool, self.this_class.name_index) {
            return false;
        }
        match &self.super_class {
            Some(c) => {
                if !utf8_at(&self.constant_pool, c.name_index) {
                    return false;
                }
            },
            None => {},
        }
        let mut i: usize = 0;
        while i < self.interfaces.len()
            invariant
                i <= self.interfaces@.len(),
                forall|k: int| 0 <= k < i ==> is_utf8_at(self.constant_pool@, #[trigger] self.interfaces@[k].name_index),
            decreases self.interfaces@.len() - i,
        {
            if !utf8_at(&self.constant_pool, self.interfaces[i].name_index) {
                assert(self@.interfaces[i as int] == self.interfaces@[i as int]);
                return false;
            }
            i += 1;
        }
        let mut j: usize = 0;
        while j < self.fields.len()
            invariant
                j <= self.fields@.len(),
                forall|k: int|
                    0 <= k < j ==> #[trigger] member_resolves(
                        self.constant_pool@,
                        self@.fields[k].name_index,
                        self@.fields[k].descriptor_index,
                    ),
            decreases self.fields@.len() - j,
        {
            let name_ok = utf8_at(&self.constant_pool, self.fields[j].name_index);
            let descriptor_ok = utf8_at(&self.constant_pool, self.fields[j].descriptor_index);
            assert(self@.fields[j as int] == self.fields@[j as int]@);
            if !name_ok || !descriptor_ok {
                assert(!member_resolves(
                    self.constant_pool@,
                    self@.fields[j as int].name_index,
                    self@.fields[j as int].descriptor_index,
                ));
                return false;
            }
            j += 1;
        }
        let mut j: usize = 0;
        while j < self.methods.len()
            invariant
                j <= self.methods@.len(),
                forall|k: int|
                    0 <= k < j ==> #[trigger] member_resolves(
                        self.constant_pool@,
                        self@.methods[k].name_index,
                        self@.methods[k].descriptor_index,
                    ),
            decreases self.methods@.len() - j,
        {
            let name_ok = utf8_at(&self.constant_pool, self.methods[j].name_index);
            let descriptor_ok = utf8_at(&self.constant_pool, self.methods[j].descriptor_index);
            assert(self@.methods[j as int] == self.methods@[j as int]@);
            if !name_ok || !descriptor_ok {
                assert(!member_resolves(
                    self.constant_pool@,
                    self@.methods[j as int].name_index,
                    self@.methods[j as int].descriptor_index,
                ));
                return false;
            }
            j += 1;
        }
        true
    }
}

} // verus!
