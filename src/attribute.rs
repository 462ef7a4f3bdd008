//! Attributes: length-prefixed records, dispatched by the UTF-8 name that
//! their name index resolves to in the constant pool. The payload of an
//! attribute is read inside a window of its declared length: a read past the
//! window, or a payload that ends before it, is a `LengthMismatch`.

use vstd::prelude::*;
use crate::access_flags::{
    method_parameter_flags_of, module_exports_flags_of, module_flags_of, module_opens_flags_of,
    module_requires_flags_of, nested_class_flags_of, Flags, MethodParameterAccessFlags,
    ModuleExportsFlags, ModuleFlags, ModuleOpensFlags, ModuleRequiresFlags, NestedClassAccessFlags,
};
use crate::annotation::{
    parse_annotation, parse_element_value, parse_parameter_annotation, parse_type_annotation,
    read_annotation, read_element_value, read_parameter_annotation, read_type_annotation, Annotation,
    AnnotationModel, ElementValue, ElementValueModel, ParameterAnnotations, ParameterAnnotationsModel,
    TypeAnnotation, TypeAnnotationModel,
};
use crate::byte_reader::{
    agrees, agrees_view, overrun, take_bytes, take_u16, take_u16_list, take_u16_table, take_u32, take_u8,
    u16_at, u32_at, ByteReader, Parsed,
};
use crate::constant_pool::{ConstantModel, ConstantPool};
use crate::error::{error_at, DecodeError, ErrorKind};
use crate::mutf8::code_points;
use crate::stack_map::{parse_stack_map_frame, read_stack_map_frame, StackMapFrame, StackMapFrameModel};

verus! {

broadcast use {vstd::std_specs::vec::group_vec_axioms, vstd::seq::group_seq_axioms};

/// `x` in front of the list that `r` holds.
pub open spec fn cons<T>(x: T, r: Parsed<Seq<T>>) -> Parsed<Seq<T>> {
    match r {
        Ok((xs, q)) => Ok((seq![x] + xs, q)),
        Err(err) => Err(err),
    }
}

/// `a` in front of the list that `r` holds.
pub open spec fn prepend<T>(a: Seq<T>, r: Parsed<Seq<T>>) -> Parsed<Seq<T>> {
    match r {
        Ok((xs, q)) => Ok((a + xs, q)),
        Err(err) => Err(err),
    }
}

pub(crate) proof fn lemma_prepend_cons<T>(a: Seq<T>, x: T, r: Parsed<Seq<T>>)
    ensures
        prepend(a, cons(x, r)) == prepend(a.push(x), r),
{
    match r {
        Ok((xs, q)) => {
            assert(a + (seq![x] + xs) =~= a.push(x) + xs);
        },
        Err(_) => {},
    }
}

pub(crate) proof fn lemma_prepend_empty<T>(r: Parsed<Seq<T>>)
    ensures
        prepend(Seq::<T>::empty(), r) == r,
{
    match r {
        Ok((xs, q)) => {
            assert(Seq::<T>::empty() + xs =~= xs);
        },
        Err(_) => {},
    }
}


/// The element views of a sequence.
pub open spec fn views<T: View>(v: Seq<T>) -> Seq<T::V> {
    v.map_values(|x: T| x@)
}

/// `r`, element by element through the views, is the list that `s` gives, and
/// `q` the position after it.
pub open spec fn agrees_views<T: View>(r: Result<Vec<T>, DecodeError>, q: int, s: Parsed<Seq<T::V>>) -> bool {
    match s {
        Ok((v, p)) => r is Ok && views(r->Ok_0@) == v && q == p,
        Err(err) => r == Err::<Vec<T>, DecodeError>(err),
    }
}


/// Describes an exception handler in the code array
#[derive(Clone, Copy, Debug, PartialEq, Eq, Structural)]
pub struct ExceptionTableEntry {
    pub start_pc: u16,
    pub end_pc: u16,
    pub handler_pc: u16,
    pub catch_type: u16,
}

/// The exception handler entry stored at `p`.
pub open spec fn exception_table_entry_at(d: Seq<u8>, p: int) -> ExceptionTableEntry {
    ExceptionTableEntry { start_pc: u16_at(d, p + 0), end_pc: u16_at(d, p + 2), handler_pc: u16_at(d, p + 4), catch_type: u16_at(d, p + 6) }
}

/// A table of `n` exception handler entries of 8 bytes each, checked against the window as a whole.
pub open spec fn take_exception_table(d: Seq<u8>, e: int, p: int, n: int) -> Parsed<Seq<ExceptionTableEntry>> {
    if p + 8 * n <= e {
        Ok((Seq::new(n as nat, |i: int| exception_table_entry_at(d, p + 8 * i)), p + 8 * n))
    } else {
        Err(overrun(d, p, 8 * n))
    }
}

/// Reads a table of `n` exception handler entries.
pub(crate) fn read_exception_table(reader: &mut ByteReader, n: u16) -> (r: Result<Vec<ExceptionTableEntry>, DecodeError>)
    requires
        old(reader).wf(),
    ensures
        final(reader).wf(),
        final(reader).same_source(old(reader)),
        agrees_view(r, final(reader).spec_pos(), take_exception_table(old(reader).spec_data(), old(reader).spec_limit(), old(reader).spec_pos(), n as int)),
{
    let size: usize = 8 * n as usize;
    if reader.remaining() < size {
        return Err(reader.overrun_error(size));
    }
    let ghost start = reader.spec_pos();
    let mut out: Vec<ExceptionTableEntry> = Vec::with_capacity(n as usize);
    let mut i: u16 = 0;
    while i < n
        invariant
            reader.wf(),
            reader.same_source(old(reader)),
            reader.spec_data() == old(reader).spec_data(),
            start == old(reader).spec_pos(),
            start + 8 * n <= reader.spec_limit(),
            i <= n,
            reader.spec_pos() == start + 8 * i,
            out@ =~= Seq::new(i as nat, |k: int| exception_table_entry_at(reader.spec_data(), start + 8 * k)),
        decreases n - i,
    {
        let start_pc = reader.read_u16()?;
        let end_pc = reader.read_u16()?;
        let handler_pc = reader.read_u16()?;
        let catch_type = reader.read_u16()?;
        out.push(ExceptionTableEntry { start_pc, end_pc, handler_pc, catch_type });
        i += 1;
    }
    Ok(out)
}

/// Represents an entry in the line number table in a line number table attribute
#[derive(Clone, Copy, Debug, PartialEq, Eq, Structural)]
pub struct LineNumberTableEntry {
    pub start_pc: u16,
    pub line_number: u16,
}

/// The line number entry stored at `p`.
pub open spec fn line_number_table_entry_at(d: Seq<u8>, p: int) -> LineNumberTableEntry {
    LineNumberTableEntry { start_pc: u16_at(d, p + 0), line_number: u16_at(d, p + 2) }
}

/// A table of `n` line number entries of 4 bytes each, checked against the window as a whole.
pub open spec fn take_line_number_table(d: Seq<u8>, e: int, p: int, n: int) -> Parsed<Seq<LineNumberTableEntry>> {
    if p + 4 * n <= e {
        Ok((Seq::new(n as nat, |i: int| line_number_table_entry_at(d, p + 4 * i)), p + 4 * n))
    } else {
        Err(overrun(d, p, 4 * n))
    }
}

/// Reads a table of `n` line number entries.
pub(crate) fn read_line_number_table(reader: &mut ByteReader, n: u16) -> (r: Result<Vec<LineNumberTableEntry>, DecodeError>)
    requires
        old(reader).wf(),
    ensures
        final(reader).wf(),
        final(reader).same_source(old(reader)),
        agrees_view(r, final(reader).spec_pos(), take_line_number_table(old(reader).spec_data(), old(reader).spec_limit(), old(reader).spec_pos(), n as int)),
{
    let size: usize = 4 * n as usize;
    if reader.remaining() < size {
        return Err(reader.overrun_error(size));
    }
    let ghost start = reader.spec_pos();
    let mut out: Vec<LineNumberTableEntry> = Vec::with_capacity(n as usize);
    let mut i: u16 = 0;
    while i < n
        invariant
            reader.wf(),
            reader.same_source(old(reader)),
            reader.spec_data() == old(reader).spec_data(),
            start == old(reader).spec_pos(),
            start + 4 * n <= reader.spec_limit(),
            i <= n,
            reader.spec_pos() == start + 4 * i,
            out@ =~= Seq::new(i as nat, |k: int| line_number_table_entry_at(reader.spec_data(), start + 4 * k)),
        decreases n - i,
    {
        let start_pc = reader.read_u16()?;
        let line_number = reader.read_u16()?;
        out.push(LineNumberTableEntry { start_pc, line_number });
        i += 1;
    }
    Ok(out)
}

/// A range of code offsets within which a local variable has a value, and its
/// index in the local variable array
#[derive(Clone, Copy, Debug, PartialEq, Eq, Structural)]
pub struct LocalVariableTableEntry {
    pub start_pc: u16,
    pub length: u16,
    pub name_index: u16,
    pub descriptor_index: u16,
    pub index: u16,
}

/// The local variable entry stored at `p`.
pub open spec fn local_variable_table_entry_at(d: Seq<u8>, p: int) -> LocalVariableTableEntry {
    LocalVariableTableEntry { start_pc: u16_at(d, p + 0), length: u16_at(d, p + 2), name_index: u16_at(d, p + 4), descriptor_index: u16_at(d, p + 6), index: u16_at(d, p + 8) }
}

/// A table of `n` local variable entries of 10 bytes each, checked against the window as a whole.
pub open spec fn take_local_variable_table(d: Seq<u8>, e: int, p: int, n: int) -> Parsed<Seq<LocalVariableTableEntry>> {
    if p + 10 * n <= e {
        Ok((Seq::new(n as nat, |i: int| local_variable_table_entry_at(d, p + 10 * i)), p + 10 * n))
    } else {
        Err(overrun(d, p, 10 * n))
    }
}

/// Reads a table of `n` local variable entries.
pub(crate) fn read_local_variable_table(reader: &mut ByteReader, n: u16) -> (r: Result<Vec<LocalVariableTableEntry>, DecodeError>)
    requires
        old(reader).wf(),
    ensures
        final(reader).wf(),
        final(reader).same_source(old(reader)),
        agrees_view(r, final(reader).spec_pos(), take_local_variable_table(old(reader).spec_data(), old(reader).spec_limit(), old(reader).spec_pos(), n as int)),
{
    let size: usize = 10 * n as usize;
    if reader.remaining() < size {
        return Err(reader.overrun_error(size));
    }
    let ghost start = reader.spec_pos();
    let mut out: Vec<LocalVariableTableEntry> = Vec::with_capacity(n as usize);
    let mut i: u16 = 0;
    while i < n
        invariant
            reader.wf(),
            reader.same_source(old(reader)),
            reader.spec_data() == old(reader).spec_data(),
            start == old(reader).spec_pos(),
            start + 10 * n <= reader.spec_limit(),
            i <= n,
            reader.spec_pos() == start + 10 * i,
            out@ =~= Seq::new(i as nat, |k: int| local_variable_table_entry_at(reader.spec_data(), start + 10 * k)),
        decreases n - i,
    {
        let start_pc = reader.read_u16()?;
        let length = reader.read_u16()?;
        let name_index = reader.read_u16()?;
        let descriptor_index = reader.read_u16()?;
        let index = reader.read_u16()?;
        out.push(LocalVariableTableEntry { start_pc, length, name_index, descriptor_index, index });
        i += 1;
    }
    Ok(out)
}

/// A range of code offsets within which a local variable of a generic type has a
/// value, and its index in the local variable array
#[derive(Clone, Copy, Debug, PartialEq, Eq, Structural)]
pub struct LocalVariableTypeTableEntry {
    pub start_pc: u16,
    pub length: u16,
    pub name_index: u16,
    pub signature_index: u16,
    pub index: u16,
}

/// The local variable type entry stored at `p`.
pub open spec fn local_variable_type_table_entry_at(d: Seq<u8>, p: int) -> LocalVariableTypeTableEntry {
    LocalVariableTypeTableEntry { start_pc: u16_at(d, p + 0), length: u16_at(d, p + 2), name_index: u16_at(d, p + 4), signature_index: u16_at(d, p + 6), index: u16_at(d, p + 8) }
}

/// A table of `n` local variable type entries of 10 bytes each, checked against the window as a whole.
pub open spec fn take_local_variable_type_table(d: Seq<u8>, e: int, p: int, n: int) -> Parsed<Seq<LocalVariableTypeTableEntry>> {
    if p + 10 * n <= e {
        Ok((Seq::new(n as nat, |i: int| local_variable_type_table_entry_at(d, p + 10 * i)), p + 10 * n))
    } else {
        Err(overrun(d, p, 10 * n))
    }
}

/// Reads a table of `n` local variable type entries.
pub(crate) fn read_local_variable_type_table(reader: &mut ByteReader, n: u16) -> (r: Result<Vec<LocalVariableTypeTableEntry>, DecodeError>)
    requires
        old(reader).wf(),
    ensures
        final(reader).wf(),
        final(reader).same_source(old(reader)),
        agrees_view(r, final(reader).spec_pos(), take_local_variable_type_table(old(reader).spec_data(), old(reader).spec_limit(), old(reader).spec_pos(), n as int)),
{
    let size: usize = 10 * n as usize;
    if reader.remaining() < size {
        return Err(reader.overrun_error(size));
    }
    let ghost start = reader.spec_pos();
    let mut out: Vec<LocalVariableTypeTableEntry> = Vec::with_capacity(n as usize);
    let mut i: u16 = 0;
    while i < n
        invariant
            reader.wf(),
            reader.same_source(old(reader)),
            reader.spec_data() == old(reader).spec_data(),
            start == old(reader).spec_pos(),
            start + 10 * n <= reader.spec_limit(),
            i <= n,
            reader.spec_pos() == start + 10 * i,
            out@ =~= Seq::new(i as nat, |k: int| local_variable_type_table_entry_at(reader.spec_data(), start + 10 * k)),
        decreases n - i,
    {
        let start_pc = reader.read_u16()?;
        let length = reader.read_u16()?;
        let name_index = reader.read_u16()?;
        let signature_index = reader.read_u16()?;
        let index = reader.read_u16()?;
        out.push(LocalVariableTypeTableEntry { start_pc, length, name_index, signature_index, index });
        i += 1;
    }
    Ok(out)
}

/// Represents a class entry in the inner classes attribute
#[derive(Clone, Debug)]
pub struct InnerClassEntry {
    pub inner_class_info_index: u16,
    pub outer_class_info_index: u16,
    pub inner_name_index: u16,
    pub inner_class_access_flags: Vec<NestedClassAccessFlags>,
}

/// A `InnerClassEntry` with its flags as a sequence.
pub ghost struct InnerClassEntryModel {
    pub inner_class_info_index: u16,
    pub outer_class_info_index: u16,
    pub inner_name_index: u16,
    pub inner_class_access_flags: Seq<NestedClassAccessFlags>,
}

impl View for InnerClassEntry {
    type V = InnerClassEntryModel;

    open spec fn view(&self) -> InnerClassEntryModel {
        InnerClassEntryModel { inner_class_info_index: self.inner_class_info_index, outer_class_info_index: self.outer_class_info_index, inner_name_index: self.inner_name_index, inner_class_access_flags: self.inner_class_access_flags@ }
    }
}

/// The inner class entry stored at `p`.
pub open spec fn inner_class_entry_at(d: Seq<u8>, p: int) -> InnerClassEntryModel {
    InnerClassEntryModel { inner_class_info_index: u16_at(d, p + 0), outer_class_info_index: u16_at(d, p + 2), inner_name_index: u16_at(d, p + 4), inner_class_access_flags: nested_class_flags_of(u16_at(d, p + 6)) }
}

/// A table of `n` inner class entries of 8 bytes each, checked against the window as a whole.
pub open spec fn take_inner_class_table(d: Seq<u8>, e: int, p: int, n: int) -> Parsed<Seq<InnerClassEntryModel>> {
    if p + 8 * n <= e {
        Ok((Seq::new(n as nat, |i: int| inner_class_entry_at(d, p + 8 * i)), p + 8 * n))
    } else {
        Err(overrun(d, p, 8 * n))
    }
}

/// Reads a table of `n` inner class entries.
pub(crate) fn read_inner_class_table(reader: &mut ByteReader, n: u16) -> (r: Result<Vec<InnerClassEntry>, DecodeError>)
    requires
        old(reader).wf(),
    ensures
        final(reader).wf(),
        final(reader).same_source(old(reader)),
        agrees_views(r, final(reader).spec_pos(), take_inner_class_table(old(reader).spec_data(), old(reader).spec_limit(), old(reader).spec_pos(), n as int)),
{
    let size: usize = 8 * n as usize;
    if reader.remaining() < size {
        return Err(reader.overrun_error(size));
    }
    let ghost start = reader.spec_pos();
    let mut out: Vec<InnerClassEntry> = Vec::with_capacity(n as usize);
    let mut i: u16 = 0;
    while i < n
        invariant
            reader.wf(),
            reader.same_source(old(reader)),
            reader.spec_data() == old(reader).spec_data(),
            start == old(reader).spec_pos(),
            start + 8 * n <= reader.spec_limit(),
            i <= n,
            reader.spec_pos() == start + 8 * i,
            views(out@) =~= Seq::new(i as nat, |k: int| inner_class_entry_at(reader.spec_data(), start + 8 * k)),
        decreases n - i,
    {
        let inner_class_info_index = reader.read_u16()?;
        let outer_class_info_index = reader.read_u16()?;
        let inner_name_index = reader.read_u16()?;
        let inner_class_access_flags = reader.read_u16()?;
        let ghost before = views(out@);
        let entry = InnerClassEntry { inner_class_info_index, outer_class_info_index, inner_name_index, inner_class_access_flags: NestedClassAccessFlags::from_u16(inner_class_access_flags) };
        proof {
            assert(entry@ == inner_class_entry_at(reader.spec_data(), start + 8 * i));
        }
        out.push(entry);
        proof {
            assert(views(out@) =~= before.push(entry@));
        }
        i += 1;
    }
    Ok(out)
}

/// Represents information about a method parameter
#[derive(Clone, Debug)]
pub struct MethodParameterEntry {
    pub name_index: u16,
    pub access_flags: Vec<MethodParameterAccessFlags>,
}

/// A `MethodParameterEntry` with its flags as a sequence.
pub ghost struct MethodParameterEntryModel {
    pub name_index: u16,
    pub access_flags: Seq<MethodParameterAccessFlags>,
}

impl View for MethodParameterEntry {
    type V = MethodParameterEntryModel;

    open spec fn view(&self) -> MethodParameterEntryModel {
        MethodParameterEntryModel { name_index: self.name_index, access_flags: self.access_flags@ }
    }
}

/// The method parameter entry stored at `p`.
pub open spec fn method_parameter_entry_at(d: Seq<u8>, p: int) -> MethodParameterEntryModel {
    MethodParameterEntryModel { name_index: u16_at(d, p + 0), access_flags: method_parameter_flags_of(u16_at(d, p + 2)) }
}

/// A table of `n` method parameter entries of 4 bytes each, checked against the window as a whole.
pub open spec fn take_method_parameter_table(d: Seq<u8>, e: int, p: int, n: int) -> Parsed<Seq<MethodParameterEntryModel>> {
    if p + 4 * n <= e {
        Ok((Seq::new(n as nat, |i: int| method_parameter_entry_at(d, p + 4 * i)), p + 4 * n))
    } else {
        Err(overrun(d, p, 4 * n))
    }
}

/// Reads a table of `n` method parameter entries.
pub(crate) fn read_method_parameter_table(reader: &mut ByteReader, n: u16) -> (r: Result<Vec<MethodParameterEntry>, DecodeError>)
    requires
        old(reader).wf(),
    ensures
        final(reader).wf(),
        final(reader).same_source(old(reader)),
        agrees_views(r, final(reader).spec_pos(), take_method_parameter_table(old(reader).spec_data(), old(reader).spec_limit(), old(reader).spec_pos(), n as int)),
{
    let size: usize = 4 * n as usize;
    if reader.remaining() < size {
        return Err(reader.overrun_error(size));
    }
    let ghost start = reader.spec_pos();
    let mut out: Vec<MethodParameterEntry> = Vec::with_capacity(n as usize);
    let mut i: u16 = 0;
    while i < n
        invariant
            reader.wf(),
            reader.same_source(old(reader)),
            reader.spec_data() == old(reader).spec_data(),
            start == old(reader).spec_pos(),
            start + 4 * n <= reader.spec_limit(),
            i <= n,
            reader.spec_pos() == start + 4 * i,
            views(out@) =~= Seq::new(i as nat, |k: int| method_parameter_entry_at(reader.spec_data(), start + 4 * k)),
        decreases n - i,
    {
        let name_index = reader.read_u16()?;
        let access_flags = reader.read_u16()?;
        let ghost before = views(out@);
        let entry = MethodParameterEntry { name_index, access_flags: MethodParameterAccessFlags::from_u16(access_flags) };
        proof {
            assert(entry@ == method_parameter_entry_at(reader.spec_data(), start + 4 * i));
        }
        out.push(entry);
        proof {
            assert(views(out@) =~= before.push(entry@));
        }
        i += 1;
    }
    Ok(out)
}

/// Specifies a dependence of the current module
#[derive(Clone, Debug)]
pub struct ModuleRequiresEntry {
    pub requires_index: u16,
    pub requires_flags: Vec<ModuleRequiresFlags>,
    pub requires_version_index: u16,
}

/// A `ModuleRequiresEntry` with its flags as a sequence.
pub ghost struct ModuleRequiresEntryModel {
    pub requires_index: u16,
    pub requires_flags: Seq<ModuleRequiresFlags>,
    pub requires_version_index: u16,
}

impl View for ModuleRequiresEntry {
    type V = ModuleRequiresEntryModel;

    open spec fn view(&self) -> ModuleRequiresEntryModel {
        ModuleRequiresEntryModel { requires_index: self.requires_index, requires_flags: self.requires_flags@, requires_version_index: self.requires_version_index }
    }
}

/// The module requires entry stored at `p`.
pub open spec fn module_requires_entry_at(d: Seq<u8>, p: int) -> ModuleRequiresEntryModel {
    ModuleRequiresEntryModel { requires_index: u16_at(d, p + 0), requires_flags: module_requires_flags_of(u16_at(d, p + 2)), requires_version_index: u16_at(d, p + 4) }
}

/// A table of `n` module requires entries of 6 bytes each, checked against the window as a whole.
pub open spec fn take_module_requires_table(d: Seq<u8>, e: int, p: int, n: int) -> Parsed<Seq<ModuleRequiresEntryModel>> {
    if p + 6 * n <= e {
        Ok((Seq::new(n as nat, |i: int| module_requires_entry_at(d, p + 6 * i)), p + 6 * n))
    } else {
        Err(overrun(d, p, 6 * n))
    }
}

/// Reads a table of `n` module requires entries.
pub(crate) fn read_module_requires_table(reader: &mut ByteReader, n: u16) -> (r: Result<Vec<ModuleRequiresEntry>, DecodeError>)
    requires
        old(reader).wf(),
    ensures
        final(reader).wf(),
        final(reader).same_source(old(reader)),
        agrees_views(r, final(reader).spec_pos(), take_module_requires_table(old(reader).spec_data(), old(reader).spec_limit(), old(reader).spec_pos(), n as int)),
{
    let size: usize = 6 * n as usize;
    if reader.remaining() < size {
        return Err(reader.overrun_error(size));
    }
    let ghost start = reader.spec_pos();
    let mut out: Vec<ModuleRequiresEntry> = Vec::with_capacity(n as usize);
    let mut i: u16 = 0;
    while i < n
        invariant
            reader.wf(),
            reader.same_source(old(reader)),
            reader.spec_data() == old(reader).spec_data(),
            start == old(reader).spec_pos(),
            start + 6 * n <= reader.spec_limit(),
            i <= n,
            reader.spec_pos() == start + 6 * i,
            views(out@) =~= Seq::new(i as nat, |k: int| module_requires_entry_at(reader.spec_data(), start + 6 * k)),
        decreases n - i,
    {
        let requires_index = reader.read_u16()?;
        let requires_flags = reader.read_u16()?;
        let requires_version_index = reader.read_u16()?;
        let ghost before = views(out@);
        let entry = ModuleRequiresEntry { requires_index, requires_flags: ModuleRequiresFlags::from_u16(requires_flags), requires_version_index };
        proof {
            assert(entry@ == module_requires_entry_at(reader.spec_data(), start + 6 * i));
        }
        out.push(entry);
        proof {
            assert(views(out@) =~= before.push(entry@));
        }
        i += 1;
    }
    Ok(out)
}

/// Represents a bootstrap method information entry
#[derive(Clone, Debug)]
pub struct BootstrapMethodEntry {
    pub bootstrap_method_ref: u16,
    pub bootstrap_arguments: Vec<u16>,
}

/// A `BootstrapMethodEntry` with its lists as sequences.
pub ghost struct BootstrapMethodEntryModel {
    pub bootstrap_method_ref: u16,
    pub bootstrap_arguments: Seq<u16>,
}

impl View for BootstrapMethodEntry {
    type V = BootstrapMethodEntryModel;

    open spec fn view(&self) -> BootstrapMethodEntryModel {
        BootstrapMethodEntryModel { bootstrap_method_ref: self.bootstrap_method_ref, bootstrap_arguments: self.bootstrap_arguments@ }
    }
}

/// The bootstrap method entry at `p`.
pub open spec fn parse_bootstrap_method(d: Seq<u8>, e: int, p: int) -> Parsed<BootstrapMethodEntryModel> {
    match take_u16(d, e, p) {
        Err(err) => Err(err),
        Ok((bootstrap_method_ref, p1)) => match take_u16_list(d, e, p1) {
            Err(err) => Err(err),
            Ok((bootstrap_arguments, p2)) => Ok((BootstrapMethodEntryModel { bootstrap_method_ref, bootstrap_arguments }, p2)),
        },
    }
}

/// Reads the bootstrap method entry at the current position.
fn read_bootstrap_method(reader: &mut ByteReader) -> (r: Result<BootstrapMethodEntry, DecodeError>)
    requires
        old(reader).wf(),
    ensures
        final(reader).wf(),
        final(reader).same_source(old(reader)),
        agrees_view(r, final(reader).spec_pos(), parse_bootstrap_method(old(reader).spec_data(), old(reader).spec_limit(), old(reader).spec_pos())),
{
    let bootstrap_method_ref = reader.read_u16()?;
    let bootstrap_arguments = reader.read_u16_list()?;
    Ok(BootstrapMethodEntry { bootstrap_method_ref, bootstrap_arguments })
}

/// `n` bootstrap method entries.
pub open spec fn parse_bootstrap_method_list(d: Seq<u8>, e: int, p: int, n: int) -> Parsed<Seq<BootstrapMethodEntryModel>>
    decreases n,
{
    if n <= 0 {
        Ok((Seq::empty(), p))
    } else {
        match parse_bootstrap_method(d, e, p) {
            Err(err) => Err(err),
            Ok((x, q)) => cons(x, parse_bootstrap_method_list(d, e, q, n - 1)),
        }
    }
}

/// Reads `n` consecutive entries.
pub(crate) fn read_bootstrap_method_list(reader: &mut ByteReader, n: u16) -> (r: Result<Vec<BootstrapMethodEntry>, DecodeError>)
    requires
        old(reader).wf(),
    ensures
        final(reader).wf(),
        final(reader).same_source(old(reader)),
        agrees_views(r, final(reader).spec_pos(), parse_bootstrap_method_list(old(reader).spec_data(), old(reader).spec_limit(), old(reader).spec_pos(), n as int)),
{
    let mut out: Vec<BootstrapMethodEntry> = Vec::new();
    let mut i: u16 = 0;
    proof {
        lemma_prepend_empty(parse_bootstrap_method_list(old(reader).spec_data(), old(reader).spec_limit(), old(reader).spec_pos(), n as int));
    }
    while i < n
        invariant
            reader.wf(),
            reader.same_source(old(reader)),
            i <= n,
            parse_bootstrap_method_list(old(reader).spec_data(), old(reader).spec_limit(), old(reader).spec_pos(), n as int) == prepend(
                views(out@),
                parse_bootstrap_method_list(reader.spec_data(), reader.spec_limit(), reader.spec_pos(), n - i),
            ),
        decreases n - i,
    {
        let ghost before = views(out@);
        let x = read_bootstrap_method(reader)?;
        proof {
            lemma_prepend_cons(before, x@, parse_bootstrap_method_list(reader.spec_data(), reader.spec_limit(), reader.spec_pos(), n - i - 1));
        }
        out.push(x);
        proof {
            assert(views(out@) =~= before.push(x@));
        }
        i += 1;
    }
    proof {
        assert(views(out@) + Seq::empty() =~= views(out@));
    }
    Ok(out)
}

/// Specifies a package exported by the current module
#[derive(Clone, Debug)]
pub struct ModuleExportsEntry {
    pub exports_index: u16,
    pub exports_flags: Vec<ModuleExportsFlags>,
    pub exports_to_index: Vec<u16>,
}

/// A `ModuleExportsEntry` with its lists as sequences.
pub ghost struct ModuleExportsEntryModel {
    pub exports_index: u16,
    pub exports_flags: Seq<ModuleExportsFlags>,
    pub exports_to_index: Seq<u16>,
}

impl View for ModuleExportsEntry {
    type V = ModuleExportsEntryModel;

    open spec fn view(&self) -> ModuleExportsEntryModel {
        ModuleExportsEntryModel { exports_index: self.exports_index, exports_flags: self.exports_flags@, exports_to_index: self.exports_to_index@ }
    }
}

/// The module exports entry at `p`.
pub open spec fn parse_module_export(d: Seq<u8>, e: int, p: int) -> Parsed<ModuleExportsEntryModel> {
    match take_u16(d, e, p) {
        Err(err) => Err(err),
        Ok((exports_index, p1)) => match take_u16(d, e, p1) {
            Err(err) => Err(err),
            Ok((exports_flags_mask, p2)) => match take_u16_list(d, e, p2) {
                Err(err) => Err(err),
                Ok((exports_to_index, p3)) => Ok((ModuleExportsEntryModel { exports_index, exports_flags: module_exports_flags_of(exports_flags_mask), exports_to_index }, p3)),
            },
        },
    }
}

/// Reads the module exports entry at the current position.
fn read_module_export(reader: &mut ByteReader) -> (r: Result<ModuleExportsEntry, DecodeError>)
    requires
        old(reader).wf(),
    ensures
        final(reader).wf(),
        final(reader).same_source(old(reader)),
        agrees_view(r, final(reader).spec_pos(), parse_module_export(old(reader).spec_data(), old(reader).spec_limit(), old(reader).spec_pos())),
{
    let exports_index = reader.read_u16()?;
    let exports_flags_mask = reader.read_u16()?;
    let exports_to_index = reader.read_u16_list()?;
    Ok(ModuleExportsEntry { exports_index, exports_flags: ModuleExportsFlags::from_u16(exports_flags_mask), exports_to_index })
}

/// `n` module exports entries.
pub open spec fn parse_module_exports(d: Seq<u8>, e: int, p: int, n: int) -> Parsed<Seq<ModuleExportsEntryModel>>
    decreases n,
{
    if n <= 0 {
        Ok((Seq::empty(), p))
    } else {
        match parse_module_export(d, e, p) {
            Err(err) => Err(err),
            Ok((x, q)) => cons(x, parse_module_exports(d, e, q, n - 1)),
        }
    }
}

/// Reads `n` consecutive entries.
pub(crate) fn read_module_exports(reader: &mut ByteReader, n: u16) -> (r: Result<Vec<ModuleExportsEntry>, DecodeError>)
    requires
        old(reader).wf(),
    ensures
        final(reader).wf(),
        final(reader).same_source(old(reader)),
        agrees_views(r, final(reader).spec_pos(), parse_module_exports(old(reader).spec_data(), old(reader).spec_limit(), old(reader).spec_pos(), n as int)),
{
    let mut out: Vec<ModuleExportsEntry> = Vec::new();
    let mut i: u16 = 0;
    proof {
        lemma_prepend_empty(parse_module_exports(old(reader).spec_data(), old(reader).spec_limit(), old(reader).spec_pos(), n as int));
    }
    while i < n
        invariant
            reader.wf(),
            reader.same_source(old(reader)),
            i <= n,
            parse_module_exports(old(reader).spec_data(), old(reader).spec_limit(), old(reader).spec_pos(), n as int) == prepend(
                views(out@),
                parse_module_exports(reader.spec_data(), reader.spec_limit(), reader.spec_pos(), n - i),
            ),
        decreases n - i,
    {
        let ghost before = views(out@);
        let x = read_module_export(reader)?;
        proof {
            lemma_prepend_cons(before, x@, parse_module_exports(reader.spec_data(), reader.spec_limit(), reader.spec_pos(), n - i - 1));
        }
        out.push(x);
        proof {
            assert(views(out@) =~= before.push(x@));
        }
        i += 1;
    }
    proof {
        assert(views(out@) + Seq::empty() =~= views(out@));
    }
    Ok(out)
}

/// Specifies a package opened by the current module, such that all its types and
/// their members may be accessed through reflection, possibly only from a set of
/// "friend" modules
#[derive(Clone, Debug)]
pub struct ModuleOpensEntry {
    pub opens_index: u16,
    pub opens_flags: Vec<ModuleOpensFlags>,
    pub opens_to_index: Vec<u16>,
}

/// A `ModuleOpensEntry` with its lists as sequences.
pub ghost struct ModuleOpensEntryModel {
    pub opens_index: u16,
    pub opens_flags: Seq<ModuleOpensFlags>,
    pub opens_to_index: Seq<u16>,
}

impl View for ModuleOpensEntry {
    type V = ModuleOpensEntryModel;

    open spec fn view(&self) -> ModuleOpensEntryModel {
        ModuleOpensEntryModel { opens_index: self.opens_index, opens_flags: self.opens_flags@, opens_to_index: self.opens_to_index@ }
    }
}

/// The module opens entry at `p`.
pub open spec fn parse_module_open(d: Seq<u8>, e: int, p: int) -> Parsed<ModuleOpensEntryModel> {
    match take_u16(d, e, p) {
        Err(err) => Err(err),
        Ok((opens_index, p1)) => match take_u16(d, e, p1) {
            Err(err) => Err(err),
            Ok((opens_flags_mask, p2)) => match take_u16_list(d, e, p2) {
                Err(err) => Err(err),
                Ok((opens_to_index, p3)) => Ok((ModuleOpensEntryModel { opens_index, opens_flags: module_opens_flags_of(opens_flags_mask), opens_to_index }, p3)),
            },
        },
    }
}

/// Reads the module opens entry at the current position.
fn read_module_open(reader: &mut ByteReader) -> (r: Result<ModuleOpensEntry, DecodeError>)
    requires
        old(reader).wf(),
    ensures
        final(reader).wf(),
        final(reader).same_source(old(reader)),
        agrees_view(r, final(reader).spec_pos(), parse_module_open(old(reader).spec_data(), old(reader).spec_limit(), old(reader).spec_pos())),
{
    let opens_index = reader.read_u16()?;
    let opens_flags_mask = reader.read_u16()?;
    let opens_to_index = reader.read_u16_list()?;
    Ok(ModuleOpensEntry { opens_index, opens_flags: ModuleOpensFlags::from_u16(opens_flags_mask), opens_to_index })
}

/// `n` module opens entries.
pub open spec fn parse_module_opens(d: Seq<u8>, e: int, p: int, n: int) -> Parsed<Seq<ModuleOpensEntryModel>>
    decreases n,
{
    if n <= 0 {
        Ok((Seq::empty(), p))
    } else {
        match parse_module_open(d, e, p) {
            Err(err) => Err(err),
            Ok((x, q)) => cons(x, parse_module_opens(d, e, q, n - 1)),
        }
    }
}

/// Reads `n` consecutive entries.
pub(crate) fn read_module_opens(reader: &mut ByteReader, n: u16) -> (r: Result<Vec<ModuleOpensEntry>, DecodeError>)
    requires
        old(reader).wf(),
    ensures
        final(reader).wf(),
        final(reader).same_source(old(reader)),
        agrees_views(r, final(reader).spec_pos(), parse_module_opens(old(reader).spec_data(), old(reader).spec_limit(), old(reader).spec_pos(), n as int)),
{
    let mut out: Vec<ModuleOpensEntry> = Vec::new();
    let mut i: u16 = 0;
    proof {
        lemma_prepend_empty(parse_module_opens(old(reader).spec_data(), old(reader).spec_limit(), old(reader).spec_pos(), n as int));
    }
    while i < n
        invariant
            reader.wf(),
            reader.same_source(old(reader)),
            i <= n,
            parse_module_opens(old(reader).spec_data(), old(reader).spec_limit(), old(reader).spec_pos(), n as int) == prepend(
                views(out@),
                parse_module_opens(reader.spec_data(), reader.spec_limit(), reader.spec_pos(), n - i),
            ),
        decreases n - i,
    {
        let ghost before = views(out@);
        let x = read_module_open(reader)?;
        proof {
            lemma_prepend_cons(before, x@, parse_module_opens(reader.spec_data(), reader.spec_limit(), reader.spec_pos(), n - i - 1));
        }
        out.push(x);
        proof {
            assert(views(out@) =~= before.push(x@));
        }
        i += 1;
    }
    proof {
        assert(views(out@) + Seq::empty() =~= views(out@));
    }
    Ok(out)
}

/// Represents a service implementation for a given service interface
#[derive(Clone, Debug)]
pub struct ModuleProvidesEntry {
    pub provides_index: u16,
    pub provides_with_count: u16,
    pub provides_with_index: Vec<u16>,
}

/// A `ModuleProvidesEntry` with its lists as sequences.
pub ghost struct ModuleProvidesEntryModel {
    pub provides_index: u16,
    pub provides_with_count: u16,
    pub provides_with_index: Seq<u16>,
}

impl View for ModuleProvidesEntry {
    type V = ModuleProvidesEntryModel;

    open spec fn view(&self) -> ModuleProvidesEntryModel {
        ModuleProvidesEntryModel { provides_index: self.provides_index, provides_with_count: self.provides_with_count, provides_with_index: self.provides_with_index@ }
    }
}

/// The module provides entry at `p`.
pub open spec fn parse_module_provide(d: Seq<u8>, e: int, p: int) -> Parsed<ModuleProvidesEntryModel> {
    match take_u16(d, e, p) {
        Err(err) => Err(err),
        Ok((provides_index, p1)) => match take_u16(d, e, p1) {
            Err(err) => Err(err),
            Ok((provides_with_count, p2)) => match take_u16_table(d, e, p2, provides_with_count as int) {
                Err(err) => Err(err),
                Ok((provides_with_index, p3)) => Ok((ModuleProvidesEntryModel { provides_index, provides_with_count, provides_with_index }, p3)),
            },
        },
    }
}

/// Reads the module provides entry at the current position.
fn read_module_provide(reader: &mut ByteReader) -> (r: Result<ModuleProvidesEntry, DecodeError>)
    requires
        old(reader).wf(),
    ensures
        final(reader).wf(),
        final(reader).same_source(old(reader)),
        agrees_view(r, final(reader).spec_pos(), parse_module_provide(old(reader).spec_data(), old(reader).spec_limit(), old(reader).spec_pos())),
{
    let provides_index = reader.read_u16()?;
    let provides_with_count = reader.read_u16()?;
    let provides_with_index = reader.read_u16_table(provides_with_count)?;
    Ok(ModuleProvidesEntry { provides_index, provides_with_count, provides_with_index })
}

/// `n` module provides entries.
pub open spec fn parse_module_provides(d: Seq<u8>, e: int, p: int, n: int) -> Parsed<Seq<ModuleProvidesEntryModel>>
    decreases n,
{
    if n <= 0 {
        Ok((Seq::empty(), p))
    } else {
        match parse_module_provide(d, e, p) {
            Err(err) => Err(err),
            Ok((x, q)) => cons(x, parse_module_provides(d, e, q, n - 1)),
        }
    }
}

/// Reads `n` consecutive entries.
pub(crate) fn read_module_provides(reader: &mut ByteReader, n: u16) -> (r: Result<Vec<ModuleProvidesEntry>, DecodeError>)
    requires
        old(reader).wf(),
    ensures
        final(reader).wf(),
        final(reader).same_source(old(reader)),
        agrees_views(r, final(reader).spec_pos(), parse_module_provides(old(reader).spec_data(), old(reader).spec_limit(), old(reader).spec_pos(), n as int)),
{
    let mut out: Vec<ModuleProvidesEntry> = Vec::new();
    let mut i: u16 = 0;
    proof {
        lemma_prepend_empty(parse_module_provides(old(reader).spec_data(), old(reader).spec_limit(), old(reader).spec_pos(), n as int));
    }
    while i < n
        invariant
            reader.wf(),
            reader.same_source(old(reader)),
            i <= n,
            parse_module_provides(old(reader).spec_data(), old(reader).spec_limit(), old(reader).spec_pos(), n as int) == prepend(
                views(out@),
                parse_module_provides(reader.spec_data(), reader.spec_limit(), reader.spec_pos(), n - i),
            ),
        decreases n - i,
    {
        let ghost before = views(out@);
        let x = read_module_provide(reader)?;
        proof {
            lemma_prepend_cons(before, x@, parse_module_provides(reader.spec_data(), reader.spec_limit(), reader.spec_pos(), n - i - 1));
        }
        out.push(x);
        proof {
            assert(views(out@) =~= before.push(x@));
        }
        i += 1;
    }
    proof {
        assert(views(out@) + Seq::empty() =~= views(out@));
    }
    Ok(out)
}

/// A range of code in which a local variable lives, and its index
#[derive(Clone, Copy, Debug, PartialEq, Eq, Structural)]
pub struct LocalVarTargetEntry {
    pub start_pc: u16,
    pub length: u16,
    pub index: u16,
}

/// The local variable target entry stored at `p`.
pub open spec fn local_var_target_entry_at(d: Seq<u8>, p: int) -> LocalVarTargetEntry {
    LocalVarTargetEntry { start_pc: u16_at(d, p + 0), length: u16_at(d, p + 2), index: u16_at(d, p + 4) }
}

/// A table of `n` local variable target entries of 6 bytes each, checked against the window as a whole.
pub open spec fn take_localvar_target_table(d: Seq<u8>, e: int, p: int, n: int) -> Parsed<Seq<LocalVarTargetEntry>> {
    if p + 6 * n <= e {
        Ok((Seq::new(n as nat, |i: int| local_var_target_entry_at(d, p + 6 * i)), p + 6 * n))
    } else {
        Err(overrun(d, p, 6 * n))
    }
}

/// Reads a table of `n` local variable target entries.
pub(crate) fn read_localvar_target_table(reader: &mut ByteReader, n: u16) -> (r: Result<Vec<LocalVarTargetEntry>, DecodeError>)
    requires
        old(reader).wf(),
    ensures
        final(reader).wf(),
        final(reader).same_source(old(reader)),
        agrees_view(r, final(reader).spec_pos(), take_localvar_target_table(old(reader).spec_data(), old(reader).spec_limit(), old(reader).spec_pos(), n as int)),
{
    let size: usize = 6 * n as usize;
    if reader.remaining() < size {
        return Err(reader.overrun_error(size));
    }
    let ghost start = reader.spec_pos();
    let mut out: Vec<LocalVarTargetEntry> = Vec::with_capacity(n as usize);
    let mut i: u16 = 0;
    while i < n
        invariant
            reader.wf(),
            reader.same_source(old(reader)),
            reader.spec_data() == old(reader).spec_data(),
            start == old(reader).spec_pos(),
            start + 6 * n <= reader.spec_limit(),
            i <= n,
            reader.spec_pos() == start + 6 * i,
            out@ =~= Seq::new(i as nat, |k: int| local_var_target_entry_at(reader.spec_data(), start + 6 * k)),
        decreases n - i,
    {
        let start_pc = reader.read_u16()?;
        let length = reader.read_u16()?;
        let index = reader.read_u16()?;
        out.push(LocalVarTargetEntry { start_pc, length, index });
        i += 1;
    }
    Ok(out)
}

/// `n` stack map frames.
pub open spec fn parse_stack_map_frames(d: Seq<u8>, e: int, p: int, n: int) -> Parsed<Seq<StackMapFrameModel>>
    decreases n,
{
    if n <= 0 {
        Ok((Seq::empty(), p))
    } else {
        match parse_stack_map_frame(d, e, p) {
            Err(err) => Err(err),
            Ok((x, q)) => cons(x, parse_stack_map_frames(d, e, q, n - 1)),
        }
    }
}

/// Reads `n` consecutive entries.
pub(crate) fn read_stack_map_frames(reader: &mut ByteReader, n: u16) -> (r: Result<Vec<StackMapFrame>, DecodeError>)
    requires
        old(reader).wf(),
    ensures
        final(reader).wf(),
        final(reader).same_source(old(reader)),
        agrees_views(r, final(reader).spec_pos(), parse_stack_map_frames(old(reader).spec_data(), old(reader).spec_limit(), old(reader).spec_pos(), n as int)),
{
    let mut out: Vec<StackMapFrame> = Vec::new();
    let mut i: u16 = 0;
    proof {
        lemma_prepend_empty(parse_stack_map_frames(old(reader).spec_data(), old(reader).spec_limit(), old(reader).spec_pos(), n as int));
    }
    while i < n
        invariant
            reader.wf(),
            reader.same_source(old(reader)),
            i <= n,
            parse_stack_map_frames(old(reader).spec_data(), old(reader).spec_limit(), old(reader).spec_pos(), n as int) == prepend(
                views(out@),
                parse_stack_map_frames(reader.spec_data(), reader.spec_limit(), reader.spec_pos(), n - i),
            ),
        decreases n - i,
    {
        let ghost before = views(out@);
        let x = read_stack_map_frame(reader)?;
        proof {
            lemma_prepend_cons(before, x@, parse_stack_map_frames(reader.spec_data(), reader.spec_limit(), reader.spec_pos(), n - i - 1));
        }
        out.push(x);
        proof {
            assert(views(out@) =~= before.push(x@));
        }
        i += 1;
    }
    proof {
        assert(views(out@) + Seq::empty() =~= views(out@));
    }
    Ok(out)
}

/// `n` annotations.
pub open spec fn parse_annotations(d: Seq<u8>, e: int, p: int, n: int) -> Parsed<Seq<AnnotationModel>>
    decreases n,
{
    if n <= 0 {
        Ok((Seq::empty(), p))
    } else {
        match parse_annotation(d, e, p) {
            Err(err) => Err(err),
            Ok((x, q)) => cons(x, parse_annotations(d, e, q, n - 1)),
        }
    }
}

/// Reads `n` consecutive entries.
pub(crate) fn read_annotations(reader: &mut ByteReader, n: u16) -> (r: Result<Vec<Annotation>, DecodeError>)
    requires
        old(reader).wf(),
    ensures
        final(reader).wf(),
        final(reader).same_source(old(reader)),
        agrees_views(r, final(reader).spec_pos(), parse_annotations(old(reader).spec_data(), old(reader).spec_limit(), old(reader).spec_pos(), n as int)),
{
    let mut out: Vec<Annotation> = Vec::new();
    let mut i: u16 = 0;
    proof {
        lemma_prepend_empty(parse_annotations(old(reader).spec_data(), old(reader).spec_limit(), old(reader).spec_pos(), n as int));
    }
    while i < n
        invariant
            reader.wf(),
            reader.same_source(old(reader)),
            i <= n,
            parse_annotations(old(reader).spec_data(), old(reader).spec_limit(), old(reader).spec_pos(), n as int) == prepend(
                views(out@),
                parse_annotations(reader.spec_data(), reader.spec_limit(), reader.spec_pos(), n - i),
            ),
        decreases n - i,
    {
        let ghost before = views(out@);
        let x = read_annotation(reader)?;
        proof {
            lemma_prepend_cons(before, x@, parse_annotations(reader.spec_data(), reader.spec_limit(), reader.spec_pos(), n - i - 1));
        }
        out.push(x);
        proof {
            assert(views(out@) =~= before.push(x@));
        }
        i += 1;
    }
    proof {
        assert(views(out@) + Seq::empty() =~= views(out@));
    }
    Ok(out)
}

/// The annotations of `n` parameters.
pub open spec fn parse_parameter_annotations(d: Seq<u8>, e: int, p: int, n: int) -> Parsed<Seq<ParameterAnnotationsModel>>
    decreases n,
{
    if n <= 0 {
        Ok((Seq::empty(), p))
    } else {
        match parse_parameter_annotation(d, e, p) {
            Err(err) => Err(err),
            Ok((x, q)) => cons(x, parse_parameter_annotations(d, e, q, n - 1)),
        }
    }
}

/// Reads `n` consecutive entries.
pub(crate) fn read_parameter_annotations(reader: &mut ByteReader, n: u16) -> (r: Result<Vec<ParameterAnnotations>, DecodeError>)
    requires
        old(reader).wf(),
    ensures
        final(reader).wf(),
        final(reader).same_source(old(reader)),
        agrees_views(r, final(reader).spec_pos(), parse_parameter_annotations(old(reader).spec_data(), old(reader).spec_limit(), old(reader).spec_pos(), n as int)),
{
    let mut out: Vec<ParameterAnnotations> = Vec::new();
    let mut i: u16 = 0;
    proof {
        lemma_prepend_empty(parse_parameter_annotations(old(reader).spec_data(), old(reader).spec_limit(), old(reader).spec_pos(), n as int));
    }
    while i < n
        invariant
            reader.wf(),
            reader.same_source(old(reader)),
            i <= n,
            parse_parameter_annotations(old(reader).spec_data(), old(reader).spec_limit(), old(reader).spec_pos(), n as int) == prepend(
                views(out@),
                parse_parameter_annotations(reader.spec_data(), reader.spec_limit(), reader.spec_pos(), n - i),
            ),
        decreases n - i,
    {
        let ghost before = views(out@);
        let x = read_parameter_annotation(reader)?;
        proof {
            lemma_prepend_cons(before, x@, parse_parameter_annotations(reader.spec_data(), reader.spec_limit(), reader.spec_pos(), n - i - 1));
        }
        out.push(x);
        proof {
            assert(views(out@) =~= before.push(x@));
        }
        i += 1;
    }
    proof {
        assert(views(out@) + Seq::empty() =~= views(out@));
    }
    Ok(out)
}

/// `n` type annotations.
pub open spec fn parse_type_annotations(d: Seq<u8>, e: int, p: int, n: int) -> Parsed<Seq<TypeAnnotationModel>>
    decreases n,
{
    if n <= 0 {
        Ok((Seq::empty(), p))
    } else {
        match parse_type_annotation(d, e, p) {
            Err(err) => Err(err),
            Ok((x, q)) => cons(x, parse_type_annotations(d, e, q, n - 1)),
        }
    }
}

/// Reads `n` consecutive entries.
pub(crate) fn read_type_annotations(reader: &mut ByteReader, n: u16) -> (r: Result<Vec<TypeAnnotation>, DecodeError>)
    requires
        old(reader).wf(),
    ensures
        final(reader).wf(),
        final(reader).same_source(old(reader)),
        agrees_views(r, final(reader).spec_pos(), parse_type_annotations(old(reader).spec_data(), old(reader).spec_limit(), old(reader).spec_pos(), n as int)),
{
    let mut out: Vec<TypeAnnotation> = Vec::new();
    let mut i: u16 = 0;
    proof {
        lemma_prepend_empty(parse_type_annotations(old(reader).spec_data(), old(reader).spec_limit(), old(reader).spec_pos(), n as int));
    }
    while i < n
        invariant
            reader.wf(),
            reader.same_source(old(reader)),
            i <= n,
            parse_type_annotations(old(reader).spec_data(), old(reader).spec_limit(), old(reader).spec_pos(), n as int) == prepend(
                views(out@),
                parse_type_annotations(reader.spec_data(), reader.spec_limit(), reader.spec_pos(), n - i),
            ),
        decreases n - i,
    {
        let ghost before = views(out@);
        let x = read_type_annotation(reader)?;
        proof {
            lemma_prepend_cons(before, x@, parse_type_annotations(reader.spec_data(), reader.spec_limit(), reader.spec_pos(), n - i - 1));
        }
        out.push(x);
        proof {
            assert(views(out@) =~= before.push(x@));
        }
        i += 1;
    }
    proof {
        assert(views(out@) + Seq::empty() =~= views(out@));
    }
    Ok(out)
}

/// Represents the value of a constant expression
#[derive(Clone, Copy, Debug, PartialEq, Eq, Structural)]
pub struct AttributeConstantValue {
    pub attribute_name_index: u16,
    pub attribute_length: u32,
    pub constantvalue_index: u16,
}

/// The payload of a ConstantValue attribute at `p`.
#[verifier::opaque]
pub open spec fn parse_constant_value(d: Seq<u8>, e: int, p: int, ni: u16, len: u32) -> Parsed<AttributeConstantValue> {
    match take_u16(d, e, p) {
        Err(err) => Err(err),
        Ok((constantvalue_index, p1)) => Ok((AttributeConstantValue { attribute_name_index: ni, attribute_length: len, constantvalue_index }, p1)),
    }
}

/// Gives the verification types of locals and stack at offsets of the code, for
/// type checking
#[derive(Debug)]
pub struct AttributeStackMapTable {
    pub attribute_name_index: u16,
    pub attribute_length: u32,
    pub entries: Vec<StackMapFrame>,
}

/// A `AttributeStackMapTable` with its lists as sequences.
pub ghost struct AttributeStackMapTableModel {
    pub attribute_name_index: u16,
    pub attribute_length: u32,
    pub entries: Seq<StackMapFrameModel>,
}

impl View for AttributeStackMapTable {
    type V = AttributeStackMapTableModel;

    open spec fn view(&self) -> AttributeStackMapTableModel {
        AttributeStackMapTableModel {
            attribute_name_index: self.attribute_name_index,
            attribute_length: self.attribute_length,
            entries: views(self.entries@),
        }
    }
}

/// The payload of a StackMapTable attribute at `p`.
#[verifier::opaque]
pub open spec fn parse_stack_map_table(d: Seq<u8>, e: int, p: int, ni: u16, len: u32) -> Parsed<AttributeStackMapTableModel> {
    match take_u16(d, e, p) {
        Err(err) => Err(err),
        Ok((entries_count, p1)) => match parse_stack_map_frames(d, e, p1, entries_count as int) {
            Err(err) => Err(err),
            Ok((entries, p2)) => Ok((AttributeStackMapTableModel { attribute_name_index: ni, attribute_length: len, entries }, p2)),
        },
    }
}

/// Indicates which checked exceptions a method may throw
#[derive(Debug)]
pub struct AttributeExceptions {
    pub attribute_name_index: u16,
    pub attribute_length: u32,
    pub number_of_exceptions: u16,
    pub exception_index_table: Vec<u16>,
}

/// A `AttributeExceptions` with its lists as sequences.
pub ghost struct AttributeExceptionsModel {
    pub attribute_name_index: u16,
    pub attribute_length: u32,
    pub number_of_exceptions: u16,
    pub exception_index_table: Seq<u16>,
}

impl View for AttributeExceptions {
    type V = AttributeExceptionsModel;

    open spec fn view(&self) -> AttributeExceptionsModel {
        AttributeExceptionsModel {
            attribute_name_index: self.attribute_name_index,
            attribute_length: self.attribute_length,
            number_of_exceptions: self.number_of_exceptions,
            exception_index_table: self.exception_index_table@,
        }
    }
}

/// The payload of a Exceptions attribute at `p`.
#[verifier::opaque]
pub open spec fn parse_exceptions(d: Seq<u8>, e: int, p: int, ni: u16, len: u32) -> Parsed<AttributeExceptionsModel> {
    match take_u16(d, e, p) {
        Err(err) => Err(err),
        Ok((number_of_exceptions, p1)) => match take_u16_table(d, e, p1, number_of_exceptions as int) {
            Err(err) => Err(err),
            Ok((exception_index_table, p2)) => Ok((AttributeExceptionsModel { attribute_name_index: ni, attribute_length: len, number_of_exceptions, exception_index_table }, p2)),
        },
    }
}

/// Describes the classes and interfaces nested in this one
#[derive(Debug)]
pub struct AttributeInnerClasses {
    pub attribute_name_index: u16,
    pub attribute_length: u32,
    pub classes: Vec<InnerClassEntry>,
}

/// A `AttributeInnerClasses` with its lists as sequences.
pub ghost struct AttributeInnerClassesModel {
    pub attribute_name_index: u16,
    pub attribute_length: u32,
    pub classes: Seq<InnerClassEntryModel>,
}

impl View for AttributeInnerClasses {
    type V = AttributeInnerClassesModel;

    open spec fn view(&self) -> AttributeInnerClassesModel {
        AttributeInnerClassesModel {
            attribute_name_index: self.attribute_name_index,
            attribute_length: self.attribute_length,
            classes: views(self.classes@),
        }
    }
}

/// The payload of a InnerClasses attribute at `p`.
#[verifier::opaque]
pub open spec fn parse_inner_classes(d: Seq<u8>, e: int, p: int, ni: u16, len: u32) -> Parsed<AttributeInnerClassesModel> {
    match take_u16(d, e, p) {
        Err(err) => Err(err),
        Ok((classes_count, p1)) => match take_inner_class_table(d, e, p1, classes_count as int) {
            Err(err) => Err(err),
            Ok((classes, p2)) => Ok((AttributeInnerClassesModel { attribute_name_index: ni, attribute_length: len, classes }, p2)),
        },
    }
}

/// Identifies the method that encloses a local or anonymous class
#[derive(Clone, Copy, Debug, PartialEq, Eq, Structural)]
pub struct AttributeEnclosingMethod {
    pub attribute_name_index: u16,
    pub attribute_length: u32,
    pub class_index: u16,
    pub method_index: u16,
}

/// The payload of a EnclosingMethod attribute at `p`.
#[verifier::opaque]
pub open spec fn parse_enclosing_method(d: Seq<u8>, e: int, p: int, ni: u16, len: u32) -> Parsed<AttributeEnclosingMethod> {
    match take_u16(d, e, p) {
        Err(err) => Err(err),
        Ok((class_index, p1)) => match take_u16(d, e, p1) {
            Err(err) => Err(err),
            Ok((method_index, p2)) => Ok((AttributeEnclosingMethod { attribute_name_index: ni, attribute_length: len, class_index, method_index }, p2)),
        },
    }
}

/// Marks a class member that does not appear in the source code
#[derive(Clone, Copy, Debug, PartialEq, Eq, Structural)]
pub struct AttributeSynthetic {
    pub attribute_name_index: u16,
    pub attribute_length: u32,
}

/// The payload of a Synthetic attribute at `p`.
#[verifier::opaque]
pub open spec fn parse_synthetic(d: Seq<u8>, e: int, p: int, ni: u16, len: u32) -> Parsed<AttributeSynthetic> {
    Ok((AttributeSynthetic { attribute_name_index: ni, attribute_length: len }, p))
}

/// Stores the generic signature of a class, method, field or record component
#[derive(Clone, Copy, Debug, PartialEq, Eq, Structural)]
pub struct AttributeSignature {
    pub attribute_name_index: u16,
    pub attribute_length: u32,
    pub signature_index: u16,
}

/// The payload of a Signature attribute at `p`.
#[verifier::opaque]
pub open spec fn parse_signature(d: Seq<u8>, e: int, p: int, ni: u16, len: u32) -> Parsed<AttributeSignature> {
    match take_u16(d, e, p) {
        Err(err) => Err(err),
        Ok((signature_index, p1)) => Ok((AttributeSignature { attribute_name_index: ni, attribute_length: len, signature_index }, p1)),
    }
}

/// Names the source file from which this class file was compiled
#[derive(Clone, Copy, Debug, PartialEq, Eq, Structural)]
pub struct AttributeSourceFile {
    pub attribute_name_index: u16,
    pub attribute_length: u32,
    pub sourcefile_index: u16,
}

/// The payload of a SourceFile attribute at `p`.
#[verifier::opaque]
pub open spec fn parse_source_file(d: Seq<u8>, e: int, p: int, ni: u16, len: u32) -> Parsed<AttributeSourceFile> {
    match take_u16(d, e, p) {
        Err(err) => Err(err),
        Ok((sourcefile_index, p1)) => Ok((AttributeSourceFile { attribute_name_index: ni, attribute_length: len, sourcefile_index }, p1)),
    }
}

/// Holds extended debugging information, kept byte for byte
#[derive(Debug)]
pub struct AttributeSourceDebugExtension {
    pub attribute_name_index: u16,
    pub attribute_length: u32,
    pub debug_extension: Vec<u8>,
}

/// A `AttributeSourceDebugExtension` with its lists as sequences.
pub ghost struct AttributeSourceDebugExtensionModel {
    pub attribute_name_index: u16,
    pub attribute_length: u32,
    pub debug_extension: Seq<u8>,
}

impl View for AttributeSourceDebugExtension {
    type V = AttributeSourceDebugExtensionModel;

    open spec fn view(&self) -> AttributeSourceDebugExtensionModel {
        AttributeSourceDebugExtensionModel {
            attribute_name_index: self.attribute_name_index,
            attribute_length: self.attribute_length,
            debug_extension: self.debug_extension@,
        }
    }
}

/// The payload of a SourceDebugExtension attribute at `p`.
#[verifier::opaque]
pub open spec fn parse_source_debug_extension(d: Seq<u8>, e: int, p: int, ni: u16, len: u32) -> Parsed<AttributeSourceDebugExtensionModel> {
    match take_bytes(d, e, p, len as int) {
        Err(err) => Err(err),
        Ok((debug_extension, p1)) => Ok((AttributeSourceDebugExtensionModel { attribute_name_index: ni, attribute_length: len, debug_extension }, p1)),
    }
}

/// Maps offsets of the code array to line numbers of the source file
#[derive(Debug)]
pub struct AttributeLineNumberTable {
    pub attribute_name_index: u16,
    pub attribute_length: u32,
    pub line_number_table: Vec<LineNumberTableEntry>,
}

/// A `AttributeLineNumberTable` with its lists as sequences.
pub ghost struct AttributeLineNumberTableModel {
    pub attribute_name_index: u16,
    pub attribute_length: u32,
    pub line_number_table: Seq<LineNumberTableEntry>,
}

impl View for AttributeLineNumberTable {
    type V = AttributeLineNumberTableModel;

    open spec fn view(&self) -> AttributeLineNumberTableModel {
        AttributeLineNumberTableModel {
            attribute_name_index: self.attribute_name_index,
            attribute_length: self.attribute_length,
            line_number_table: self.line_number_table@,
        }
    }
}

/// The payload of a LineNumberTable attribute at `p`.
#[verifier::opaque]
pub open spec fn parse_line_number_table(d: Seq<u8>, e: int, p: int, ni: u16, len: u32) -> Parsed<AttributeLineNumberTableModel> {
    match take_u16(d, e, p) {
        Err(err) => Err(err),
        Ok((line_number_table_count, p1)) => match take_line_number_table(d, e, p1, line_number_table_count as int) {
            Err(err) => Err(err),
            Ok((line_number_table, p2)) => Ok((AttributeLineNumberTableModel { attribute_name_index: ni, attribute_length: len, line_number_table }, p2)),
        },
    }
}

/// Describes the local variables of a method, for debuggers
#[derive(Debug)]
pub struct AttributeLocalVariableTable {
    pub attribute_name_index: u16,
    pub attribute_length: u32,
    pub local_variable_table: Vec<LocalVariableTableEntry>,
}

/// A `AttributeLocalVariableTable` with its lists as sequences.
pub ghost struct AttributeLocalVariableTableModel {
    pub attribute_name_index: u16,
    pub attribute_length: u32,
    pub local_variable_table: Seq<LocalVariableTableEntry>,
}

impl View for AttributeLocalVariableTable {
    type V = AttributeLocalVariableTableModel;

    open spec fn view(&self) -> AttributeLocalVariableTableModel {
        AttributeLocalVariableTableModel {
            attribute_name_index: self.attribute_name_index,
            attribute_length: self.attribute_length,
            local_variable_table: self.local_variable_table@,
        }
    }
}

/// The payload of a LocalVariableTable attribute at `p`.
#[verifier::opaque]
pub open spec fn parse_local_variable_table(d: Seq<u8>, e: int, p: int, ni: u16, len: u32) -> Parsed<AttributeLocalVariableTableModel> {
    match take_u16(d, e, p) {
        Err(err) => Err(err),
        Ok((local_variable_table_count, p1)) => match take_local_variable_table(d, e, p1, local_variable_table_count as int) {
            Err(err) => Err(err),
            Ok((local_variable_table, p2)) => Ok((AttributeLocalVariableTableModel { attribute_name_index: ni, attribute_length: len, local_variable_table }, p2)),
        },
    }
}

/// Describes the local variables of generic types of a method, for debuggers
#[derive(Debug)]
pub struct AttributeLocalVariableTypeTable {
    pub attribute_name_index: u16,
    pub attribute_length: u32,
    pub local_variable_type_table: Vec<LocalVariableTypeTableEntry>,
}

/// A `AttributeLocalVariableTypeTable` with its lists as sequences.
pub ghost struct AttributeLocalVariableTypeTableModel {
    pub attribute_name_index: u16,
    pub attribute_length: u32,
    pub local_variable_type_table: Seq<LocalVariableTypeTableEntry>,
}

impl View for AttributeLocalVariableTypeTable {
    type V = AttributeLocalVariableTypeTableModel;

    open spec fn view(&self) -> AttributeLocalVariableTypeTableModel {
        AttributeLocalVariableTypeTableModel {
            attribute_name_index: self.attribute_name_index,
            attribute_length: self.attribute_length,
            local_variable_type_table: self.local_variable_type_table@,
        }
    }
}

/// The payload of a LocalVariableTypeTable attribute at `p`.
#[verifier::opaque]
pub open spec fn parse_local_variable_type_table(d: Seq<u8>, e: int, p: int, ni: u16, len: u32) -> Parsed<AttributeLocalVariableTypeTableModel> {
    match take_u16(d, e, p) {
        Err(err) => Err(err),
        Ok((local_variable_type_table_count, p1)) => match take_local_variable_type_table(d, e, p1, local_variable_type_table_count as int) {
            Err(err) => Err(err),
            Ok((local_variable_type_table, p2)) => Ok((AttributeLocalVariableTypeTableModel { attribute_name_index: ni, attribute_length: len, local_variable_type_table }, p2)),
        },
    }
}

/// Marks a class, interface, method or field that has been superseded
#[derive(Clone, Copy, Debug, PartialEq, Eq, Structural)]
pub struct AttributeDeprecated {
    pub attribute_name_index: u16,
    pub attribute_length: u32,
}

/// The payload of a Deprecated attribute at `p`.
#[verifier::opaque]
pub open spec fn parse_deprecated(d: Seq<u8>, e: int, p: int, ni: u16, len: u32) -> Parsed<AttributeDeprecated> {
    Ok((AttributeDeprecated { attribute_name_index: ni, attribute_length: len }, p))
}

/// Records the annotations visible at run time of a class, field or method
#[derive(Debug)]
pub struct AttributeRuntimeVisibleAnnotations {
    pub attribute_name_index: u16,
    pub attribute_length: u32,
    pub annotations: Vec<Annotation>,
}

/// A `AttributeRuntimeVisibleAnnotations` with its lists as sequences.
pub ghost struct AttributeRuntimeVisibleAnnotationsModel {
    pub attribute_name_index: u16,
    pub attribute_length: u32,
    pub annotations: Seq<AnnotationModel>,
}

impl View for AttributeRuntimeVisibleAnnotations {
    type V = AttributeRuntimeVisibleAnnotationsModel;

    open spec fn view(&self) -> AttributeRuntimeVisibleAnnotationsModel {
        AttributeRuntimeVisibleAnnotationsModel {
            attribute_name_index: self.attribute_name_index,
            attribute_length: self.attribute_length,
            annotations: views(self.annotations@),
        }
    }
}

/// The payload of a RuntimeVisibleAnnotations attribute at `p`.
#[verifier::opaque]
pub open spec fn parse_runtime_visible_annotations(d: Seq<u8>, e: int, p: int, ni: u16, len: u32) -> Parsed<AttributeRuntimeVisibleAnnotationsModel> {
    match take_u16(d, e, p) {
        Err(err) => Err(err),
        Ok((annotations_count, p1)) => match parse_annotations(d, e, p1, annotations_count as int) {
            Err(err) => Err(err),
            Ok((annotations, p2)) => Ok((AttributeRuntimeVisibleAnnotationsModel { attribute_name_index: ni, attribute_length: len, annotations }, p2)),
        },
    }
}

/// Records the annotations not visible at run time of a class, field or method
#[derive(Debug)]
pub struct AttributeRuntimeInvisibleAnnotations {
    pub attribute_name_index: u16,
    pub attribute_length: u32,
    pub annotations: Vec<Annotation>,
}

/// A `AttributeRuntimeInvisibleAnnotations` with its lists as sequences.
pub ghost struct AttributeRuntimeInvisibleAnnotationsModel {
    pub attribute_name_index: u16,
    pub attribute_length: u32,
    pub annotations: Seq<AnnotationModel>,
}

impl View for AttributeRuntimeInvisibleAnnotations {
    type V = AttributeRuntimeInvisibleAnnotationsModel;

    open spec fn view(&self) -> AttributeRuntimeInvisibleAnnotationsModel {
        AttributeRuntimeInvisibleAnnotationsModel {
            attribute_name_index: self.attribute_name_index,
            attribute_length: self.attribute_length,
            annotations: views(self.annotations@),
        }
    }
}

/// The payload of a RuntimeInvisibleAnnotations attribute at `p`.
#[verifier::opaque]
pub open spec fn parse_runtime_invisible_annotations(d: Seq<u8>, e: int, p: int, ni: u16, len: u32) -> Parsed<AttributeRuntimeInvisibleAnnotationsModel> {
    match take_u16(d, e, p) {
        Err(err) => Err(err),
        Ok((annotations_count, p1)) => match parse_annotations(d, e, p1, annotations_count as int) {
            Err(err) => Err(err),
            Ok((annotations, p2)) => Ok((AttributeRuntimeInvisibleAnnotationsModel { attribute_name_index: ni, attribute_length: len, annotations }, p2)),
        },
    }
}

/// Records the annotations visible at run time of the formal parameters of a method
#[derive(Debug)]
pub struct AttributeRuntimeVisibleParameterAnnotations {
    pub attribute_name_index: u16,
    pub attribute_length: u32,
    pub parameter_annotations: Vec<ParameterAnnotations>,
}

/// A `AttributeRuntimeVisibleParameterAnnotations` with its lists as sequences.
pub ghost struct AttributeRuntimeVisibleParameterAnnotationsModel {
    pub attribute_name_index: u16,
    pub attribute_length: u32,
    pub parameter_annotations: Seq<ParameterAnnotationsModel>,
}

impl View for AttributeRuntimeVisibleParameterAnnotations {
    type V = AttributeRuntimeVisibleParameterAnnotationsModel;

    open spec fn view(&self) -> AttributeRuntimeVisibleParameterAnnotationsModel {
        AttributeRuntimeVisibleParameterAnnotationsModel {
            attribute_name_index: self.attribute_name_index,
            attribute_length: self.attribute_length,
            parameter_annotations: views(self.parameter_annotations@),
        }
    }
}

/// The payload of a RuntimeVisibleParameterAnnotations attribute at `p`.
#[verifier::opaque]
pub open spec fn parse_runtime_visible_parameter_annotations(d: Seq<u8>, e: int, p: int, ni: u16, len: u32) -> Parsed<AttributeRuntimeVisibleParameterAnnotationsModel> {
    match take_u8(d, e, p) {
        Err(err) => Err(err),
        Ok((parameter_annotations_count, p1)) => match parse_parameter_annotations(d, e, p1, parameter_annotations_count as int) {
            Err(err) => Err(err),
            Ok((parameter_annotations, p2)) => Ok((AttributeRuntimeVisibleParameterAnnotationsModel { attribute_name_index: ni, attribute_length: len, parameter_annotations }, p2)),
        },
    }
}

/// Records the annotations not visible at run time of the formal parameters of a
/// method
#[derive(Debug)]
pub struct AttributeRuntimeInvisibleParameterAnnotations {
    pub attribute_name_index: u16,
    pub attribute_length: u32,
    pub parameter_annotations: Vec<ParameterAnnotations>,
}

/// A `AttributeRuntimeInvisibleParameterAnnotations` with its lists as sequences.
pub ghost struct AttributeRuntimeInvisibleParameterAnnotationsModel {
    pub attribute_name_index: u16,
    pub attribute_length: u32,
    pub parameter_annotations: Seq<ParameterAnnotationsModel>,
}

impl View for AttributeRuntimeInvisibleParameterAnnotations {
    type V = AttributeRuntimeInvisibleParameterAnnotationsModel;

    open spec fn view(&self) -> AttributeRuntimeInvisibleParameterAnnotationsModel {
        AttributeRuntimeInvisibleParameterAnnotationsModel {
            attribute_name_index: self.attribute_name_index,
            attribute_length: self.attribute_length,
            parameter_annotations: views(self.parameter_annotations@),
        }
    }
}

/// The payload of a RuntimeInvisibleParameterAnnotations attribute at `p`.
#[verifier::opaque]
pub open spec fn parse_runtime_invisible_parameter_annotations(d: Seq<u8>, e: int, p: int, ni: u16, len: u32) -> Parsed<AttributeRuntimeInvisibleParameterAnnotationsModel> {
    match take_u8(d, e, p) {
        Err(err) => Err(err),
        Ok((parameter_annotations_count, p1)) => match parse_parameter_annotations(d, e, p1, parameter_annotations_count as int) {
            Err(err) => Err(err),
            Ok((parameter_annotations, p2)) => Ok((AttributeRuntimeInvisibleParameterAnnotationsModel { attribute_name_index: ni, attribute_length: len, parameter_annotations }, p2)),
        },
    }
}

/// Records the annotations visible at run time on uses of types
#[derive(Debug)]
pub struct AttributeRuntimeVisibleTypeAnnotations {
    pub attribute_name_index: u16,
    pub attribute_length: u32,
    pub annotations: Vec<TypeAnnotation>,
}

/// A `AttributeRuntimeVisibleTypeAnnotations` with its lists as sequences.
pub ghost struct AttributeRuntimeVisibleTypeAnnotationsModel {
    pub attribute_name_index: u16,
    pub attribute_length: u32,
    pub annotations: Seq<TypeAnnotationModel>,
}

impl View for AttributeRuntimeVisibleTypeAnnotations {
    type V = AttributeRuntimeVisibleTypeAnnotationsModel;

    open spec fn view(&self) -> AttributeRuntimeVisibleTypeAnnotationsModel {
        AttributeRuntimeVisibleTypeAnnotationsModel {
            attribute_name_index: self.attribute_name_index,
            attribute_length: self.attribute_length,
            annotations: views(self.annotations@),
        }
    }
}

/// The payload of a RuntimeVisibleTypeAnnotations attribute at `p`.
#[verifier::opaque]
pub open spec fn parse_runtime_visible_type_annotations(d: Seq<u8>, e: int, p: int, ni: u16, len: u32) -> Parsed<AttributeRuntimeVisibleTypeAnnotationsModel> {
    match take_u16(d, e, p) {
        Err(err) => Err(err),
        Ok((annotations_count, p1)) => match parse_type_annotations(d, e, p1, annotations_count as int) {
            Err(err) => Err(err),
            Ok((annotations, p2)) => Ok((AttributeRuntimeVisibleTypeAnnotationsModel { attribute_name_index: ni, attribute_length: len, annotations }, p2)),
        },
    }
}

/// Records the annotations not visible at run time on uses of types
#[derive(Debug)]
pub struct AttributeRuntimeInvisibleTypeAnnotations {
    pub attribute_name_index: u16,
    pub attribute_length: u32,
    pub annotations: Vec<TypeAnnotation>,
}

/// A `AttributeRuntimeInvisibleTypeAnnotations` with its lists as sequences.
pub ghost struct AttributeRuntimeInvisibleTypeAnnotationsModel {
    pub attribute_name_index: u16,
    pub attribute_length: u32,
    pub annotations: Seq<TypeAnnotationModel>,
}

impl View for AttributeRuntimeInvisibleTypeAnnotations {
    type V = AttributeRuntimeInvisibleTypeAnnotationsModel;

    open spec fn view(&self) -> AttributeRuntimeInvisibleTypeAnnotationsModel {
        AttributeRuntimeInvisibleTypeAnnotationsModel {
            attribute_name_index: self.attribute_name_index,
            attribute_length: self.attribute_length,
            annotations: views(self.annotations@),
        }
    }
}

/// The payload of a RuntimeInvisibleTypeAnnotations attribute at `p`.
#[verifier::opaque]
pub open spec fn parse_runtime_invisible_type_annotations(d: Seq<u8>, e: int, p: int, ni: u16, len: u32) -> Parsed<AttributeRuntimeInvisibleTypeAnnotationsModel> {
    match take_u16(d, e, p) {
        Err(err) => Err(err),
        Ok((annotations_count, p1)) => match parse_type_annotations(d, e, p1, annotations_count as int) {
            Err(err) => Err(err),
            Ok((annotations, p2)) => Ok((AttributeRuntimeInvisibleTypeAnnotationsModel { attribute_name_index: ni, attribute_length: len, annotations }, p2)),
        },
    }
}

/// Records the default value of an element of an annotation interface
#[derive(Debug)]
pub struct AttributeAnnotationDefault {
    pub attribute_name_index: u16,
    pub attribute_length: u32,
    pub default_value: ElementValue,
}

/// A `AttributeAnnotationDefault` with its lists as sequences.
pub ghost struct AttributeAnnotationDefaultModel {
    pub attribute_name_index: u16,
    pub attribute_length: u32,
    pub default_value: ElementValueModel,
}

impl View for AttributeAnnotationDefault {
    type V = AttributeAnnotationDefaultModel;

    open spec fn view(&self) -> AttributeAnnotationDefaultModel {
        AttributeAnnotationDefaultModel {
            attribute_name_index: self.attribute_name_index,
            attribute_length: self.attribute_length,
            default_value: self.default_value@,
        }
    }
}

/// The payload of a AnnotationDefault attribute at `p`.
#[verifier::opaque]
pub open spec fn parse_annotation_default(d: Seq<u8>, e: int, p: int, ni: u16, len: u32) -> Parsed<AttributeAnnotationDefaultModel> {
    match parse_element_value(d, e, p) {
        Err(err) => Err(err),
        Ok((default_value, p1)) => Ok((AttributeAnnotationDefaultModel { attribute_name_index: ni, attribute_length: len, default_value }, p1)),
    }
}

/// Records the bootstrap methods of dynamically-computed constants and call sites
#[derive(Debug)]
pub struct AttributeBootstrapMethods {
    pub attribute_name_index: u16,
    pub attribute_length: u32,
    pub bootstrap_methods: Vec<BootstrapMethodEntry>,
}

/// A `AttributeBootstrapMethods` with its lists as sequences.
pub ghost struct AttributeBootstrapMethodsModel {
    pub attribute_name_index: u16,
    pub attribute_length: u32,
    pub bootstrap_methods: Seq<BootstrapMethodEntryModel>,
}

impl View for AttributeBootstrapMethods {
    type V = AttributeBootstrapMethodsModel;

    open spec fn view(&self) -> AttributeBootstrapMethodsModel {
        AttributeBootstrapMethodsModel {
            attribute_name_index: self.attribute_name_index,
            attribute_length: self.attribute_length,
            bootstrap_methods: views(self.bootstrap_methods@),
        }
    }
}

/// The payload of a BootstrapMethods attribute at `p`.
#[verifier::opaque]
pub open spec fn parse_bootstrap_methods(d: Seq<u8>, e: int, p: int, ni: u16, len: u32) -> Parsed<AttributeBootstrapMethodsModel> {
    match take_u16(d, e, p) {
        Err(err) => Err(err),
        Ok((bootstrap_methods_count, p1)) => match parse_bootstrap_method_list(d, e, p1, bootstrap_methods_count as int) {
            Err(err) => Err(err),
            Ok((bootstrap_methods, p2)) => Ok((AttributeBootstrapMethodsModel { attribute_name_index: ni, attribute_length: len, bootstrap_methods }, p2)),
        },
    }
}

/// Records the formal parameters of a method, such as their names
#[derive(Debug)]
pub struct AttributeMethodParameters {
    pub attribute_name_index: u16,
    pub attribute_length: u32,
    pub parameters: Vec<MethodParameterEntry>,
}

/// A `AttributeMethodParameters` with its lists as sequences.
pub ghost struct AttributeMethodParametersModel {
    pub attribute_name_index: u16,
    pub attribute_length: u32,
    pub parameters: Seq<MethodParameterEntryModel>,
}

impl View for AttributeMethodParameters {
    type V = AttributeMethodParametersModel;

    open spec fn view(&self) -> AttributeMethodParametersModel {
        AttributeMethodParametersModel {
            attribute_name_index: self.attribute_name_index,
            attribute_length: self.attribute_length,
            parameters: views(self.parameters@),
        }
    }
}

/// The payload of a MethodParameters attribute at `p`.
#[verifier::opaque]
pub open spec fn parse_method_parameters(d: Seq<u8>, e: int, p: int, ni: u16, len: u32) -> Parsed<AttributeMethodParametersModel> {
    match take_u8(d, e, p) {
        Err(err) => Err(err),
        Ok((parameters_count, p1)) => match take_method_parameter_table(d, e, p1, parameters_count as int) {
            Err(err) => Err(err),
            Ok((parameters, p2)) => Ok((AttributeMethodParametersModel { attribute_name_index: ni, attribute_length: len, parameters }, p2)),
        },
    }
}

/// Indicates the modules a module requires, the packages it exports and opens, and
/// the services it uses and provides
#[derive(Debug)]
pub struct AttributeModule {
    pub attribute_name_index: u16,
    pub attribute_length: u32,
    pub module_name_index: u16,
    pub module_flags: Vec<ModuleFlags>,
    pub module_version_index: u16,
    pub module_requires: Vec<ModuleRequiresEntry>,
    pub exports: Vec<ModuleExportsEntry>,
    pub opens: Vec<ModuleOpensEntry>,
    pub uses_index: Vec<u16>,
    pub provides: Vec<ModuleProvidesEntry>,
}

/// A `AttributeModule` with its lists as sequences.
pub ghost struct AttributeModuleModel {
    pub attribute_name_index: u16,
    pub attribute_length: u32,
    pub module_name_index: u16,
    pub module_flags: Seq<ModuleFlags>,
    pub module_version_index: u16,
    pub module_requires: Seq<ModuleRequiresEntryModel>,
    pub exports: Seq<ModuleExportsEntryModel>,
    pub opens: Seq<ModuleOpensEntryModel>,
    pub uses_index: Seq<u16>,
    pub provides: Seq<ModuleProvidesEntryModel>,
}

impl View for AttributeModule {
    type V = AttributeModuleModel;

    open spec fn view(&self) -> AttributeModuleModel {
        AttributeModuleModel {
            attribute_name_index: self.attribute_name_index,
            attribute_length: self.attribute_length,
            module_name_index: self.module_name_index,
            module_flags: self.module_flags@,
            module_version_index: self.module_version_index,
            module_requires: views(self.module_requires@),
            exports: views(self.exports@),
            opens: views(self.opens@),
            uses_index: self.uses_index@,
            provides: views(self.provides@),
        }
    }
}

/// The payload of a Module attribute at `p`.
#[verifier::opaque]
pub open spec fn parse_module(d: Seq<u8>, e: int, p: int, ni: u16, len: u32) -> Parsed<AttributeModuleModel> {
    match take_u16(d, e, p) {
        Err(err) => Err(err),
        Ok((module_name_index, p1)) => match take_u16(d, e, p1) {
            Err(err) => Err(err),
            Ok((module_flags_mask, p2)) => match take_u16(d, e, p2) {
                Err(err) => Err(err),
                Ok((module_version_index, p3)) => match take_u16(d, e, p3) {
                    Err(err) => Err(err),
                    Ok((module_requires_count, p4)) => match take_module_requires_table(d, e, p4, module_requires_count as int) {
                        Err(err) => Err(err),
                        Ok((module_requires, p5)) => match take_u16(d, e, p5) {
                            Err(err) => Err(err),
                            Ok((exports_count, p6)) => match parse_module_exports(d, e, p6, exports_count as int) {
                                Err(err) => Err(err),
                                Ok((exports, p7)) => match take_u16(d, e, p7) {
                                    Err(err) => Err(err),
                                    Ok((opens_count, p8)) => match parse_module_opens(d, e, p8, opens_count as int) {
                                        Err(err) => Err(err),
                                        Ok((opens, p9)) => match take_u16_list(d, e, p9) {
                                            Err(err) => Err(err),
                                            Ok((uses_index, p10)) => match take_u16(d, e, p10) {
                                                Err(err) => Err(err),
                                                Ok((provides_count, p11)) => match parse_module_provides(d, e, p11, provides_count as int) {
                                                    Err(err) => Err(err),
                                                    Ok((provides, p12)) => Ok((AttributeModuleModel { attribute_name_index: ni, attribute_length: len, module_name_index, module_flags: module_flags_of(module_flags_mask), module_version_index, module_requires, exports, opens, uses_index, provides }, p12)),
                                                },
                                            },
                                        },
                                    },
                                },
                            },
                        },
                    },
                },
            },
        },
    }
}

/// Indicates the packages of a module
#[derive(Debug)]
pub struct AttributeModulePackages {
    pub attribute_name_index: u16,
    pub attribute_length: u32,
    pub package_index: Vec<u16>,
}

/// A `AttributeModulePackages` with its lists as sequences.
pub ghost struct AttributeModulePackagesModel {
    pub attribute_name_index: u16,
    pub attribute_length: u32,
    pub package_index: Seq<u16>,
}

impl View for AttributeModulePackages {
    type V = AttributeModulePackagesModel;

    open spec fn view(&self) -> AttributeModulePackagesModel {
        AttributeModulePackagesModel {
            attribute_name_index: self.attribute_name_index,
            attribute_length: self.attribute_length,
            package_index: self.package_index@,
        }
    }
}

/// The payload of a ModulePackages attribute at `p`.
#[verifier::opaque]
pub open spec fn parse_module_packages(d: Seq<u8>, e: int, p: int, ni: u16, len: u32) -> Parsed<AttributeModulePackagesModel> {
    match take_u16_list(d, e, p) {
        Err(err) => Err(err),
        Ok((package_index, p1)) => Ok((AttributeModulePackagesModel { attribute_name_index: ni, attribute_length: len, package_index }, p1)),
    }
}

/// Indicates the main class of a module
#[derive(Clone, Copy, Debug, PartialEq, Eq, Structural)]
pub struct AttributeModuleMainClass {
    pub attribute_name_index: u16,
    pub attribute_length: u32,
    pub main_class_index: u16,
}

/// The payload of a ModuleMainClass attribute at `p`.
#[verifier::opaque]
pub open spec fn parse_module_main_class(d: Seq<u8>, e: int, p: int, ni: u16, len: u32) -> Parsed<AttributeModuleMainClass> {
    match take_u16(d, e, p) {
        Err(err) => Err(err),
        Ok((main_class_index, p1)) => Ok((AttributeModuleMainClass { attribute_name_index: ni, attribute_length: len, main_class_index }, p1)),
    }
}

/// Records the nest host of the nest this class claims to belong to
#[derive(Clone, Copy, Debug, PartialEq, Eq, Structural)]
pub struct AttributeNestHost {
    pub attribute_name_index: u16,
    pub attribute_length: u32,
    pub host_class_index: u16,
}

/// The payload of a NestHost attribute at `p`.
#[verifier::opaque]
pub open spec fn parse_nest_host(d: Seq<u8>, e: int, p: int, ni: u16, len: u32) -> Parsed<AttributeNestHost> {
    match take_u16(d, e, p) {
        Err(err) => Err(err),
        Ok((host_class_index, p1)) => Ok((AttributeNestHost { attribute_name_index: ni, attribute_length: len, host_class_index }, p1)),
    }
}

/// Records the classes and interfaces authorised to claim membership in this nest
#[derive(Debug)]
pub struct AttributeNestMembers {
    pub attribute_name_index: u16,
    pub attribute_length: u32,
    pub classes: Vec<u16>,
}

/// A `AttributeNestMembers` with its lists as sequences.
pub ghost struct AttributeNestMembersModel {
    pub attribute_name_index: u16,
    pub attribute_length: u32,
    pub classes: Seq<u16>,
}

impl View for AttributeNestMembers {
    type V = AttributeNestMembersModel;

    open spec fn view(&self) -> AttributeNestMembersModel {
        AttributeNestMembersModel {
            attribute_name_index: self.attribute_name_index,
            attribute_length: self.attribute_length,
            classes: self.classes@,
        }
    }
}

/// The payload of a NestMembers attribute at `p`.
#[verifier::opaque]
pub open spec fn parse_nest_members(d: Seq<u8>, e: int, p: int, ni: u16, len: u32) -> Parsed<AttributeNestMembersModel> {
    match take_u16_list(d, e, p) {
        Err(err) => Err(err),
        Ok((classes, p1)) => Ok((AttributeNestMembersModel { attribute_name_index: ni, attribute_length: len, classes }, p1)),
    }
}

/// Records the classes and interfaces authorised to extend or implement this one
#[derive(Debug)]
pub struct AttributePermittedSubclasses {
    pub attribute_name_index: u16,
    pub attribute_length: u32,
    pub classes: Vec<u16>,
}

/// A `AttributePermittedSubclasses` with its lists as sequences.
pub ghost struct AttributePermittedSubclassesModel {
    pub attribute_name_index: u16,
    pub attribute_length: u32,
    pub classes: Seq<u16>,
}

impl View for AttributePermittedSubclasses {
    type V = AttributePermittedSubclassesModel;

    open spec fn view(&self) -> AttributePermittedSubclassesModel {
        AttributePermittedSubclassesModel {
            attribute_name_index: self.attribute_name_index,
            attribute_length: self.attribute_length,
            classes: self.classes@,
        }
    }
}

/// The payload of a PermittedSubclasses attribute at `p`.
#[verifier::opaque]
pub open spec fn parse_permitted_subclasses(d: Seq<u8>, e: int, p: int, ni: u16, len: u32) -> Parsed<AttributePermittedSubclassesModel> {
    match take_u16_list(d, e, p) {
        Err(err) => Err(err),
        Ok((classes, p1)) => Ok((AttributePermittedSubclassesModel { attribute_name_index: ni, attribute_length: len, classes }, p1)),
    }
}

/// A code attribute contains the Java Virtual Machine instructions and auxiliary
/// information for a method
#[derive(Debug)]
pub struct AttributeCode {
    /// Index into the constant pool that stores the attribute's name
    pub attribute_name_index: u16,
    /// Indicates the length of the attribute (excluding the initial six bytes)
    pub attribute_length: u32,
    /// Maximum depth of the operand stack of this method
    pub max_stack: u16,
    /// Maximum number of local variables allocated upon invocation of this method
    pub max_locals: u16,
    /// The code that implements this method
    pub code: Vec<u8>,
    /// The exception handlers of the code array
    pub exception_table: Vec<ExceptionTableEntry>,
    /// Attributes associated with this code attribute
    pub attributes: Vec<AttributeInfo>,
}

/// An `AttributeCode` with its lists as sequences.
pub ghost struct AttributeCodeModel {
    pub attribute_name_index: u16,
    pub attribute_length: u32,
    pub max_stack: u16,
    pub max_locals: u16,
    pub code: Seq<u8>,
    pub exception_table: Seq<ExceptionTableEntry>,
    pub attributes: Seq<AttributeModel>,
}

impl View for AttributeCode {
    type V = AttributeCodeModel;

    open spec fn view(&self) -> AttributeCodeModel
        decreases self,
    {
        AttributeCodeModel {
            attribute_name_index: self.attribute_name_index,
            attribute_length: self.attribute_length,
            max_stack: self.max_stack,
            max_locals: self.max_locals,
            code: self.code@,
            exception_table: self.exception_table@,
            attributes: Seq::new(
                self.attributes@.len(),
                |i: int|
                    if 0 <= i < self.attributes@.len() {
                        self.attributes@[i]@
                    } else {
                        arbitrary()
                    },
            ),
        }
    }
}

proof fn lemma_code_view_attributes(c: &AttributeCode)
    ensures
        c@.attributes == views(c.attributes@),
{
    reveal_with_fuel(<AttributeCode as View>::view, 2);
    assert(c@.attributes =~= views(c.attributes@));
}

/// Specifies a record component of the current class
#[derive(Debug)]
pub struct RecordComponentInfo {
    pub name_index: u16,
    pub descriptor_index: u16,
    pub attributes: Vec<AttributeInfo>,
}

/// A `RecordComponentInfo` with its attributes as a sequence.
pub ghost struct RecordComponentModel {
    pub name_index: u16,
    pub descriptor_index: u16,
    pub attributes: Seq<AttributeModel>,
}

impl View for RecordComponentInfo {
    type V = RecordComponentModel;

    open spec fn view(&self) -> RecordComponentModel
        decreases self,
    {
        RecordComponentModel {
            name_index: self.name_index,
            descriptor_index: self.descriptor_index,
            attributes: Seq::new(
                self.attributes@.len(),
                |i: int|
                    if 0 <= i < self.attributes@.len() {
                        self.attributes@[i]@
                    } else {
                        arbitrary()
                    },
            ),
        }
    }
}

/// The Record attribute indicates that the current class is a record class, and
/// stores information about its components
#[derive(Debug)]
pub struct AttributeRecord {
    pub attribute_name_index: u16,
    pub attribute_length: u32,
    pub components: Vec<RecordComponentInfo>,
}

/// An `AttributeRecord` with its components as a sequence.
pub ghost struct AttributeRecordModel {
    pub attribute_name_index: u16,
    pub attribute_length: u32,
    pub components: Seq<RecordComponentModel>,
}

impl View for AttributeRecord {
    type V = AttributeRecordModel;

    open spec fn view(&self) -> AttributeRecordModel
        decreases self,
    {
        AttributeRecordModel {
            attribute_name_index: self.attribute_name_index,
            attribute_length: self.attribute_length,
            components: Seq::new(
                self.components@.len(),
                |i: int|
                    if 0 <= i < self.components@.len() {
                        self.components@[i]@
                    } else {
                        arbitrary()
                    },
            ),
        }
    }
}

/// Attribute types
#[derive(Clone, Copy, Debug, PartialEq, Eq, Structural)]
pub enum AttributeType {
    /// Represents the value of a constant expression
    ConstantValue,

    /// Contains the instructions and auxiliary information of a method: its stack and
    /// local limits, its exception handlers and its own attributes
    Code,

    /// Gives the verification types of locals and stack at offsets of the code, for
    /// type checking
    StackMapTable,

    /// Indicates which checked exceptions a method may throw
    Exceptions,

    /// Describes the classes and interfaces nested in this one
    InnerClasses,

    /// Identifies the method that encloses a local or anonymous class
    EnclosingMethod,

    /// Marks a class member that does not appear in the source code
    Synthetic,

    /// Stores the generic signature of a class, method, field or record component
    Signature,

    /// Names the source file from which this class file was compiled
    SourceFile,

    /// Holds extended debugging information, kept byte for byte
    SourceDebugExtension,

    /// Maps offsets of the code array to line numbers of the source file
    LineNumberTable,

    /// Describes the local variables of a method, for debuggers
    LocalVariableTable,

    /// Describes the local variables of generic types of a method, for debuggers
    LocalVariableTypeTable,

    /// Marks a class, interface, method or field that has been superseded
    Deprecated,

    /// Records the annotations visible at run time of a class, field or method
    RuntimeVisibleAnnotations,

    /// Records the annotations not visible at run time of a class, field or method
    RuntimeInvisibleAnnotations,

    /// Records the annotations visible at run time of the formal parameters of a method
    RuntimeVisibleParameterAnnotations,

    /// Records the annotations not visible at run time of the formal parameters of a
    /// method
    RuntimeInvisibleParameterAnnotations,

    /// Records the annotations visible at run time on uses of types
    RuntimeVisibleTypeAnnotations,

    /// Records the annotations not visible at run time on uses of types
    RuntimeInvisibleTypeAnnotations,

    /// Records the default value of an element of an annotation interface
    AnnotationDefault,

    /// Records the bootstrap methods of dynamically-computed constants and call sites
    BootstrapMethods,

    /// Records the formal parameters of a method, such as their names
    MethodParameters,

    /// Indicates the modules a module requires, the packages it exports and opens, and
    /// the services it uses and provides
    Module,

    /// Indicates the packages of a module
    ModulePackages,

    /// Indicates the main class of a module
    ModuleMainClass,

    /// Records the nest host of the nest this class claims to belong to
    NestHost,

    /// Records the classes and interfaces authorised to claim membership in this nest
    NestMembers,

    /// Indicates that this class is a record class, and describes its components
    Record,

    /// Records the classes and interfaces authorised to extend or implement this one
    PermittedSubclasses,
}

/// The attribute type that an attribute name, as code points, stands for.
pub open spec fn attribute_type_named(name: Seq<int>) -> Option<AttributeType> {
    if name == code_points("ConstantValue"@) {
        Some(AttributeType::ConstantValue)
    } else if name == code_points("Code"@) {
        Some(AttributeType::Code)
    } else if name == code_points("StackMapTable"@) {
        Some(AttributeType::StackMapTable)
    } else if name == code_points("Exceptions"@) {
        Some(AttributeType::Exceptions)
    } else if name == code_points("InnerClasses"@) {
        Some(AttributeType::InnerClasses)
    } else if name == code_points("EnclosingMethod"@) {
        Some(AttributeType::EnclosingMethod)
    } else if name == code_points("Synthetic"@) {
        Some(AttributeType::Synthetic)
    } else if name == code_points("Signature"@) {
        Some(AttributeType::Signature)
    } else if name == code_points("SourceFile"@) {
        Some(AttributeType::SourceFile)
    } else if name == code_points("SourceDebugExtension"@) {
        Some(AttributeType::SourceDebugExtension)
    } else if name == code_points("LineNumberTable"@) {
        Some(AttributeType::LineNumberTable)
    } else if name == code_points("LocalVariableTable"@) {
        Some(AttributeType::LocalVariableTable)
    } else if name == code_points("LocalVariableTypeTable"@) {
        Some(AttributeType::LocalVariableTypeTable)
    } else if name == code_points("Deprecated"@) {
        Some(AttributeType::Deprecated)
    } else if name == code_points("RuntimeVisibleAnnotations"@) {
        Some(AttributeType::RuntimeVisibleAnnotations)
    } else if name == code_points("RuntimeInvisibleAnnotations"@) {
        Some(AttributeType::RuntimeInvisibleAnnotations)
    } else if name == code_points("RuntimeVisibleParameterAnnotations"@) {
        Some(AttributeType::RuntimeVisibleParameterAnnotations)
    } else if name == code_points("RuntimeInvisibleParameterAnnotations"@) {
        Some(AttributeType::RuntimeInvisibleParameterAnnotations)
    } else if name == code_points("RuntimeVisibleTypeAnnotations"@) {
        Some(AttributeType::RuntimeVisibleTypeAnnotations)
    } else if name == code_points("RuntimeInvisibleTypeAnnotations"@) {
        Some(AttributeType::RuntimeInvisibleTypeAnnotations)
    } else if name == code_points("AnnotationDefault"@) {
        Some(AttributeType::AnnotationDefault)
    } else if name == code_points("BootstrapMethods"@) {
        Some(AttributeType::BootstrapMethods)
    } else if name == code_points("MethodParameters"@) {
        Some(AttributeType::MethodParameters)
    } else if name == code_points("Module"@) {
        Some(AttributeType::Module)
    } else if name == code_points("ModulePackages"@) {
        Some(AttributeType::ModulePackages)
    } else if name == code_points("ModuleMainClass"@) {
        Some(AttributeType::ModuleMainClass)
    } else if name == code_points("NestHost"@) {
        Some(AttributeType::NestHost)
    } else if name == code_points("NestMembers"@) {
        Some(AttributeType::NestMembers)
    } else if name == code_points("Record"@) {
        Some(AttributeType::Record)
    } else if name == code_points("PermittedSubclasses"@) {
        Some(AttributeType::PermittedSubclasses)
    } else {
        None
    }
}

/// The payload of an attribute, by type
#[derive(Debug)]
pub enum AttributeData {
    ConstantValue(AttributeConstantValue),
    Code(AttributeCode),
    StackMapTable(AttributeStackMapTable),
    Exceptions(AttributeExceptions),
    InnerClasses(AttributeInnerClasses),
    EnclosingMethod(AttributeEnclosingMethod),
    Synthetic(AttributeSynthetic),
    Signature(AttributeSignature),
    SourceFile(AttributeSourceFile),
    SourceDebugExtension(AttributeSourceDebugExtension),
    LineNumberTable(AttributeLineNumberTable),
    LocalVariableTable(AttributeLocalVariableTable),
    LocalVariableTypeTable(AttributeLocalVariableTypeTable),
    Deprecated(AttributeDeprecated),
    RuntimeVisibleAnnotations(AttributeRuntimeVisibleAnnotations),
    RuntimeInvisibleAnnotations(AttributeRuntimeInvisibleAnnotations),
    RuntimeVisibleParameterAnnotations(AttributeRuntimeVisibleParameterAnnotations),
    RuntimeInvisibleParameterAnnotations(AttributeRuntimeInvisibleParameterAnnotations),
    RuntimeVisibleTypeAnnotations(AttributeRuntimeVisibleTypeAnnotations),
    RuntimeInvisibleTypeAnnotations(AttributeRuntimeInvisibleTypeAnnotations),
    AnnotationDefault(AttributeAnnotationDefault),
    BootstrapMethods(AttributeBootstrapMethods),
    MethodParameters(AttributeMethodParameters),
    Module(AttributeModule),
    ModulePackages(AttributeModulePackages),
    ModuleMainClass(AttributeModuleMainClass),
    NestHost(AttributeNestHost),
    NestMembers(AttributeNestMembers),
    Record(AttributeRecord),
    PermittedSubclasses(AttributePermittedSubclasses),
}

/// An attribute payload as a ghost value.
pub ghost enum AttributeDataModel {
    ConstantValue(AttributeConstantValue),
    Code(AttributeCodeModel),
    StackMapTable(AttributeStackMapTableModel),
    Exceptions(AttributeExceptionsModel),
    InnerClasses(AttributeInnerClassesModel),
    EnclosingMethod(AttributeEnclosingMethod),
    Synthetic(AttributeSynthetic),
    Signature(AttributeSignature),
    SourceFile(AttributeSourceFile),
    SourceDebugExtension(AttributeSourceDebugExtensionModel),
    LineNumberTable(AttributeLineNumberTableModel),
    LocalVariableTable(AttributeLocalVariableTableModel),
    LocalVariableTypeTable(AttributeLocalVariableTypeTableModel),
    Deprecated(AttributeDeprecated),
    RuntimeVisibleAnnotations(AttributeRuntimeVisibleAnnotationsModel),
    RuntimeInvisibleAnnotations(AttributeRuntimeInvisibleAnnotationsModel),
    RuntimeVisibleParameterAnnotations(AttributeRuntimeVisibleParameterAnnotationsModel),
    RuntimeInvisibleParameterAnnotations(AttributeRuntimeInvisibleParameterAnnotationsModel),
    RuntimeVisibleTypeAnnotations(AttributeRuntimeVisibleTypeAnnotationsModel),
    RuntimeInvisibleTypeAnnotations(AttributeRuntimeInvisibleTypeAnnotationsModel),
    AnnotationDefault(AttributeAnnotationDefaultModel),
    BootstrapMethods(AttributeBootstrapMethodsModel),
    MethodParameters(AttributeMethodParametersModel),
    Module(AttributeModuleModel),
    ModulePackages(AttributeModulePackagesModel),
    ModuleMainClass(AttributeModuleMainClass),
    NestHost(AttributeNestHost),
    NestMembers(AttributeNestMembersModel),
    Record(AttributeRecordModel),
    PermittedSubclasses(AttributePermittedSubclassesModel),
}

impl View for AttributeData {
    type V = AttributeDataModel;

    open spec fn view(&self) -> AttributeDataModel
        decreases self,
    {
        match self {
            AttributeData::ConstantValue(x) => AttributeDataModel::ConstantValue(*x),
            AttributeData::Code(x) => AttributeDataModel::Code(x@),
            AttributeData::StackMapTable(x) => AttributeDataModel::StackMapTable(x@),
            AttributeData::Exceptions(x) => AttributeDataModel::Exceptions(x@),
            AttributeData::InnerClasses(x) => AttributeDataModel::InnerClasses(x@),
            AttributeData::EnclosingMethod(x) => AttributeDataModel::EnclosingMethod(*x),
            AttributeData::Synthetic(x) => AttributeDataModel::Synthetic(*x),
            AttributeData::Signature(x) => AttributeDataModel::Signature(*x),
            AttributeData::SourceFile(x) => AttributeDataModel::SourceFile(*x),
            AttributeData::SourceDebugExtension(x) => AttributeDataModel::SourceDebugExtension(x@),
            AttributeData::LineNumberTable(x) => AttributeDataModel::LineNumberTable(x@),
            AttributeData::LocalVariableTable(x) => AttributeDataModel::LocalVariableTable(x@),
            AttributeData::LocalVariableTypeTable(x) => AttributeDataModel::LocalVariableTypeTable(x@),
            AttributeData::Deprecated(x) => AttributeDataModel::Deprecated(*x),
            AttributeData::RuntimeVisibleAnnotations(x) => AttributeDataModel::RuntimeVisibleAnnotations(x@),
            AttributeData::RuntimeInvisibleAnnotations(x) => AttributeDataModel::RuntimeInvisibleAnnotations(x@),
            AttributeData::RuntimeVisibleParameterAnnotations(x) => AttributeDataModel::RuntimeVisibleParameterAnnotations(x@),
            AttributeData::RuntimeInvisibleParameterAnnotations(x) => AttributeDataModel::RuntimeInvisibleParameterAnnotations(x@),
            AttributeData::RuntimeVisibleTypeAnnotations(x) => AttributeDataModel::RuntimeVisibleTypeAnnotations(x@),
            AttributeData::RuntimeInvisibleTypeAnnotations(x) => AttributeDataModel::RuntimeInvisibleTypeAnnotations(x@),
            AttributeData::AnnotationDefault(x) => AttributeDataModel::AnnotationDefault(x@),
            AttributeData::BootstrapMethods(x) => AttributeDataModel::BootstrapMethods(x@),
            AttributeData::MethodParameters(x) => AttributeDataModel::MethodParameters(x@),
            AttributeData::Module(x) => AttributeDataModel::Module(x@),
            AttributeData::ModulePackages(x) => AttributeDataModel::ModulePackages(x@),
            AttributeData::ModuleMainClass(x) => AttributeDataModel::ModuleMainClass(*x),
            AttributeData::NestHost(x) => AttributeDataModel::NestHost(*x),
            AttributeData::NestMembers(x) => AttributeDataModel::NestMembers(x@),
            AttributeData::Record(x) => AttributeDataModel::Record(x@),
            AttributeData::PermittedSubclasses(x) => AttributeDataModel::PermittedSubclasses(x@),
        }
    }
}

/// Represents an attribute
#[derive(Debug)]
pub struct AttributeInfo {
    /// Identifies the type of attribute this structure represents
    pub attribute_type: AttributeType,
    /// Data associated with this attribute
    pub data: AttributeData,
}

/// An attribute as a ghost value.
pub ghost struct AttributeModel {
    pub attribute_type: AttributeType,
    pub data: AttributeDataModel,
}

impl View for AttributeInfo {
    type V = AttributeModel;

    open spec fn view(&self) -> AttributeModel
        decreases self,
    {
        AttributeModel { attribute_type: self.attribute_type, data: self.data@ }
    }
}

/// The name of an attribute whose name index is `ni`: the string of the UTF-8
/// constant there, if there is one.
pub open spec fn attribute_name(pool: Map<u16, ConstantModel>, ni: u16) -> Option<Seq<int>> {
    if pool.contains_key(ni) && pool[ni] is Utf8 {
        Some(pool[ni]->Utf8_0.string)
    } else {
        None
    }
}

/// The payload of a Code attribute at `p`.
pub open spec fn parse_code(
    d: Seq<u8>,
    e: int,
    p: int,
    ni: u16,
    len: u32,
    pool: Map<u16, ConstantModel>,
) -> Parsed<AttributeCodeModel>
    decreases if p <= e {
        e - p + 2
    } else {
        0
    },
{
    match take_u16(d, e, p) {
        Err(err) => Err(err),
        Ok((max_stack, p1)) => match take_u16(d, e, p1) {
            Err(err) => Err(err),
            Ok((max_locals, p2)) => match take_u32(d, e, p2) {
                Err(err) => Err(err),
                Ok((code_length, p3)) => match take_bytes(d, e, p3, code_length as int) {
                    Err(err) => Err(err),
                    Ok((code, p4)) => match take_u16(d, e, p4) {
                        Err(err) => Err(err),
                        Ok((exception_count, p5)) => match take_exception_table(d, e, p5, exception_count as int) {
                            Err(err) => Err(err),
                            Ok((exception_table, p6)) => match take_u16(d, e, p6) {
                                Err(err) => Err(err),
                                Ok((attributes_count, p7)) => match parse_attributes(d, e, p7, attributes_count as int, pool) {
                                    Err(err) => Err(err),
                                    Ok((attributes, q)) => Ok((
                                        AttributeCodeModel {
                                            attribute_name_index: ni,
                                            attribute_length: len,
                                            max_stack,
                                            max_locals,
                                            code,
                                            exception_table,
                                            attributes,
                                        },
                                        q,
                                    )),
                                },
                            },
                        },
                    },
                },
            },
        },
    }
}

/// The payload of a Record attribute at `p`.
pub open spec fn parse_record(
    d: Seq<u8>,
    e: int,
    p: int,
    ni: u16,
    len: u32,
    pool: Map<u16, ConstantModel>,
) -> Parsed<AttributeRecordModel>
    decreases if p <= e {
        e - p + 2
    } else {
        0
    },
{
    match take_u16(d, e, p) {
        Err(err) => Err(err),
        Ok((n, p1)) => match parse_record_components(d, e, p1, n as int, pool) {
            Err(err) => Err(err),
            Ok((components, q)) => Ok((
                AttributeRecordModel { attribute_name_index: ni, attribute_length: len, components },
                q,
            )),
        },
    }
}

/// `n` record components at `p`.
pub open spec fn parse_record_components(
    d: Seq<u8>,
    e: int,
    p: int,
    n: int,
    pool: Map<u16, ConstantModel>,
) -> Parsed<Seq<RecordComponentModel>>
    decreases e - p + 1,
{
    if n <= 0 {
        Ok((Seq::empty(), p))
    } else if p > e {
        Err(overrun(d, p, 2))
    } else {
        match take_u16(d, e, p) {
            Err(err) => Err(err),
            Ok((name_index, p1)) => match take_u16(d, e, p1) {
                Err(err) => Err(err),
                Ok((descriptor_index, p2)) => match take_u16(d, e, p2) {
                    Err(err) => Err(err),
                    Ok((count, p3)) => match parse_attributes(d, e, p3, count as int, pool) {
                        Err(err) => Err(err),
                        Ok((attributes, q)) => if q < p3 || q > e {
                            Err(error_at(ErrorKind::LengthMismatch, p))
                        } else {
                            cons(
                                RecordComponentModel { name_index, descriptor_index, attributes },
                                parse_record_components(d, e, q, n - 1, pool),
                            )
                        },
                    },
                },
            },
        }
    }
}

/// The payload of an attribute of type `t`, in the window that ends at `e`.
pub open spec fn parse_payload(
    d: Seq<u8>,
    e: int,
    p: int,
    t: AttributeType,
    ni: u16,
    len: u32,
    pool: Map<u16, ConstantModel>,
) -> Parsed<AttributeDataModel>
    decreases if p <= e {
        e - p + 3
    } else {
        1
    },
{
    match t {
        AttributeType::ConstantValue => match parse_constant_value(d, e, p, ni, len) {
            Err(err) => Err(err),
            Ok((m, q)) => Ok((AttributeDataModel::ConstantValue(m), q)),
        },
        AttributeType::Code => match parse_code(d, e, p, ni, len, pool) {
            Err(err) => Err(err),
            Ok((m, q)) => Ok((AttributeDataModel::Code(m), q)),
        },
        AttributeType::StackMapTable => match parse_stack_map_table(d, e, p, ni, len) {
            Err(err) => Err(err),
            Ok((m, q)) => Ok((AttributeDataModel::StackMapTable(m), q)),
        },
        AttributeType::Exceptions => match parse_exceptions(d, e, p, ni, len) {
            Err(err) => Err(err),
            Ok((m, q)) => Ok((AttributeDataModel::Exceptions(m), q)),
        },
        AttributeType::InnerClasses => match parse_inner_classes(d, e, p, ni, len) {
            Err(err) => Err(err),
            Ok((m, q)) => Ok((AttributeDataModel::InnerClasses(m), q)),
        },
        AttributeType::EnclosingMethod => match parse_enclosing_method(d, e, p, ni, len) {
            Err(err) => Err(err),
            Ok((m, q)) => Ok((AttributeDataModel::EnclosingMethod(m), q)),
        },
        AttributeType::Synthetic => match parse_synthetic(d, e, p, ni, len) {
            Err(err) => Err(err),
            Ok((m, q)) => Ok((AttributeDataModel::Synthetic(m), q)),
        },
        AttributeType::Signature => match parse_signature(d, e, p, ni, len) {
            Err(err) => Err(err),
            Ok((m, q)) => Ok((AttributeDataModel::Signature(m), q)),
        },
        AttributeType::SourceFile => match parse_source_file(d, e, p, ni, len) {
            Err(err) => Err(err),
            Ok((m, q)) => Ok((AttributeDataModel::SourceFile(m), q)),
        },
        AttributeType::SourceDebugExtension => match parse_source_debug_extension(d, e, p, ni, len) {
            Err(err) => Err(err),
            Ok((m, q)) => Ok((AttributeDataModel::SourceDebugExtension(m), q)),
        },
        AttributeType::LineNumberTable => match parse_line_number_table(d, e, p, ni, len) {
            Err(err) => Err(err),
            Ok((m, q)) => Ok((AttributeDataModel::LineNumberTable(m), q)),
        },
        AttributeType::LocalVariableTable => match parse_local_variable_table(d, e, p, ni, len) {
            Err(err) => Err(err),
            Ok((m, q)) => Ok((AttributeDataModel::LocalVariableTable(m), q)),
        },
        AttributeType::LocalVariableTypeTable => match parse_local_variable_type_table(d, e, p, ni, len) {
            Err(err) => Err(err),
            Ok((m, q)) => Ok((AttributeDataModel::LocalVariableTypeTable(m), q)),
        },
        AttributeType::Deprecated => match parse_deprecated(d, e, p, ni, len) {
            Err(err) => Err(err),
            Ok((m, q)) => Ok((AttributeDataModel::Deprecated(m), q)),
        },
        AttributeType::RuntimeVisibleAnnotations => match parse_runtime_visible_annotations(d, e, p, ni, len) {
            Err(err) => Err(err),
            Ok((m, q)) => Ok((AttributeDataModel::RuntimeVisibleAnnotations(m), q)),
        },
        AttributeType::RuntimeInvisibleAnnotations => match parse_runtime_invisible_annotations(d, e, p, ni, len) {
            Err(err) => Err(err),
            Ok((m, q)) => Ok((AttributeDataModel::RuntimeInvisibleAnnotations(m), q)),
        },
        AttributeType::RuntimeVisibleParameterAnnotations => match parse_runtime_visible_parameter_annotations(d, e, p, ni, len) {
            Err(err) => Err(err),
            Ok((m, q)) => Ok((AttributeDataModel::RuntimeVisibleParameterAnnotations(m), q)),
        },
        AttributeType::RuntimeInvisibleParameterAnnotations => match parse_runtime_invisible_parameter_annotations(d, e, p, ni, len) {
            Err(err) => Err(err),
            Ok((m, q)) => Ok((AttributeDataModel::RuntimeInvisibleParameterAnnotations(m), q)),
        },
        AttributeType::RuntimeVisibleTypeAnnotations => match parse_runtime_visible_type_annotations(d, e, p, ni, len) {
            Err(err) => Err(err),
            Ok((m, q)) => Ok((AttributeDataModel::RuntimeVisibleTypeAnnotations(m), q)),
        },
        AttributeType::RuntimeInvisibleTypeAnnotations => match parse_runtime_invisible_type_annotations(d, e, p, ni, len) {
            Err(err) => Err(err),
            Ok((m, q)) => Ok((AttributeDataModel::RuntimeInvisibleTypeAnnotations(m), q)),
        },
        AttributeType::AnnotationDefault => match parse_annotation_default(d, e, p, ni, len) {
            Err(err) => Err(err),
            Ok((m, q)) => Ok((AttributeDataModel::AnnotationDefault(m), q)),
        },
        AttributeType::BootstrapMethods => match parse_bootstrap_methods(d, e, p, ni, len) {
            Err(err) => Err(err),
            Ok((m, q)) => Ok((AttributeDataModel::BootstrapMethods(m), q)),
        },
        AttributeType::MethodParameters => match parse_method_parameters(d, e, p, ni, len) {
            Err(err) => Err(err),
            Ok((m, q)) => Ok((AttributeDataModel::MethodParameters(m), q)),
        },
        AttributeType::Module => match parse_module(d, e, p, ni, len) {
            Err(err) => Err(err),
            Ok((m, q)) => Ok((AttributeDataModel::Module(m), q)),
        },
        AttributeType::ModulePackages => match parse_module_packages(d, e, p, ni, len) {
            Err(err) => Err(err),
            Ok((m, q)) => Ok((AttributeDataModel::ModulePackages(m), q)),
        },
        AttributeType::ModuleMainClass => match parse_module_main_class(d, e, p, ni, len) {
            Err(err) => Err(err),
            Ok((m, q)) => Ok((AttributeDataModel::ModuleMainClass(m), q)),
        },
        AttributeType::NestHost => match parse_nest_host(d, e, p, ni, len) {
            Err(err) => Err(err),
            Ok((m, q)) => Ok((AttributeDataModel::NestHost(m), q)),
        },
        AttributeType::NestMembers => match parse_nest_members(d, e, p, ni, len) {
            Err(err) => Err(err),
            Ok((m, q)) => Ok((AttributeDataModel::NestMembers(m), q)),
        },
        AttributeType::Record => match parse_record(d, e, p, ni, len, pool) {
            Err(err) => Err(err),
            Ok((m, q)) => Ok((AttributeDataModel::Record(m), q)),
        },
        AttributeType::PermittedSubclasses => match parse_permitted_subclasses(d, e, p, ni, len) {
            Err(err) => Err(err),
            Ok((m, q)) => Ok((AttributeDataModel::PermittedSubclasses(m), q)),
        },
    }
}

/// An error met inside an attribute's payload. The payload's window lies in
/// the buffer, so a read that passes the end of the buffer there has passed
/// the declared length first: it is a `LengthMismatch`.
pub open spec fn payload_error(err: DecodeError) -> DecodeError {
    if err.kind == ErrorKind::UnexpectedEof {
        error_at(ErrorKind::LengthMismatch, err.offset as int)
    } else {
        err
    }
}

/// An attribute at `p`: its name index and length, then its payload, which
/// must take exactly that length.
pub open spec fn parse_attribute(d: Seq<u8>, e: int, p: int, pool: Map<u16, ConstantModel>) -> Parsed<
    AttributeModel,
>
    decreases e - p,
{
    match take_u16(d, e, p) {
        Err(err) => Err(err),
        Ok((ni, p1)) => match take_u32(d, e, p1) {
            Err(err) => Err(err),
            Ok((len, p2)) => match attribute_name(pool, ni) {
                None => Err(error_at(ErrorKind::BadAttributeName, p)),
                Some(name) => match attribute_type_named(name) {
                    None => Err(error_at(ErrorKind::UnknownAttribute, p)),
                    Some(t) => if p2 + len > e {
                        Err(overrun(d, p2, len as int))
                    } else {
                        match parse_payload(d, p2 + len, p2, t, ni, len, pool) {
                            Err(err) => Err(payload_error(err)),
                            Ok((data, q)) => if q != p2 + len {
                                Err(error_at(ErrorKind::LengthMismatch, p))
                            } else {
                                Ok((AttributeModel { attribute_type: t, data }, q))
                            },
                        }
                    },
                },
            },
        },
    }
}

/// `n` consecutive attributes at `p`.
pub open spec fn parse_attributes(
    d: Seq<u8>,
    e: int,
    p: int,
    n: int,
    pool: Map<u16, ConstantModel>,
) -> Parsed<Seq<AttributeModel>>
    decreases e - p + 1,
{
    if n <= 0 {
        Ok((Seq::empty(), p))
    } else if p > e {
        Err(overrun(d, p, 2))
    } else {
        match parse_attribute(d, e, p, pool) {
            Err(err) => Err(err),
            Ok((a, q)) => if q <= p || q > e {
                Err(error_at(ErrorKind::LengthMismatch, p))
            } else {
                cons(a, parse_attributes(d, e, q, n - 1, pool))
            },
        }
    }
}

/// The string equals the literal, compared as code points.
fn name_is(name: &String, literal: &str) -> (r: bool)
    ensures
        r == (code_points(name@) == code_points(literal@)),
{
    let owned = literal.to_owned();
    let r = name.eq(&owned);
    proof {
        if code_points(name@) == code_points(literal@) {
            assert(code_points(name@).len() == name@.len());
            assert(code_points(literal@).len() == literal@.len());
            assert forall|i: int| 0 <= i < name@.len() implies name@[i] == literal@[i] by {
                assert(code_points(name@)[i] == name@[i] as int);
                assert(code_points(literal@)[i] == literal@[i] as int);
            }
            assert(name@ =~= literal@);
        }
    }
    r
}

/// The attribute type a name stands for
fn attribute_type_of(name: &String) -> (r: Option<AttributeType>)
    ensures
        r == attribute_type_named(code_points(name@)),
{
    if name_is(name, "ConstantValue") {
        return Some(AttributeType::ConstantValue);
    }
    if name_is(name, "Code") {
        return Some(AttributeType::Code);
    }
    if name_is(name, "StackMapTable") {
        return Some(AttributeType::StackMapTable);
    }
    if name_is(name, "Exceptions") {
        return Some(AttributeType::Exceptions);
    }
    if name_is(name, "InnerClasses") {
        return Some(AttributeType::InnerClasses);
    }
    if name_is(name, "EnclosingMethod") {
        return Some(AttributeType::EnclosingMethod);
    }
    if name_is(name, "Synthetic") {
        return Some(AttributeType::Synthetic);
    }
    if name_is(name, "Signature") {
        return Some(AttributeType::Signature);
    }
    if name_is(name, "SourceFile") {
        return Some(AttributeType::SourceFile);
    }
    if name_is(name, "SourceDebugExtension") {
        return Some(AttributeType::SourceDebugExtension);
    }
    if name_is(name, "LineNumberTable") {
        return Some(AttributeType::LineNumberTable);
    }
    if name_is(name, "LocalVariableTable") {
        return Some(AttributeType::LocalVariableTable);
    }
    if name_is(name, "LocalVariableTypeTable") {
        return Some(AttributeType::LocalVariableTypeTable);
    }
    if name_is(name, "Deprecated") {
        return Some(AttributeType::Deprecated);
    }
    if name_is(name, "RuntimeVisibleAnnotations") {
        return Some(AttributeType::RuntimeVisibleAnnotations);
    }
    if name_is(name, "RuntimeInvisibleAnnotations") {
        return Some(AttributeType::RuntimeInvisibleAnnotations);
    }
    if name_is(name, "RuntimeVisibleParameterAnnotations") {
        return Some(AttributeType::RuntimeVisibleParameterAnnotations);
    }
    if name_is(name, "RuntimeInvisibleParameterAnnotations") {
        return Some(AttributeType::RuntimeInvisibleParameterAnnotations);
    }
    if name_is(name, "RuntimeVisibleTypeAnnotations") {
        return Some(AttributeType::RuntimeVisibleTypeAnnotations);
    }
    if name_is(name, "RuntimeInvisibleTypeAnnotations") {
        return Some(AttributeType::RuntimeInvisibleTypeAnnotations);
    }
    if name_is(name, "AnnotationDefault") {
        return Some(AttributeType::AnnotationDefault);
    }
    if name_is(name, "BootstrapMethods") {
        return Some(AttributeType::BootstrapMethods);
    }
    if name_is(name, "MethodParameters") {
        return Some(AttributeType::MethodParameters);
    }
    if name_is(name, "Module") {
        return Some(AttributeType::Module);
    }
    if name_is(name, "ModulePackages") {
        return Some(AttributeType::ModulePackages);
    }
    if name_is(name, "ModuleMainClass") {
        return Some(AttributeType::ModuleMainClass);
    }
    if name_is(name, "NestHost") {
        return Some(AttributeType::NestHost);
    }
    if name_is(name, "NestMembers") {
        return Some(AttributeType::NestMembers);
    }
    if name_is(name, "Record") {
        return Some(AttributeType::Record);
    }
    if name_is(name, "PermittedSubclasses") {
        return Some(AttributeType::PermittedSubclasses);
    }
    None
}

/// Reads `n` consecutive attributes
pub fn read_attributes(reader: &mut ByteReader, constant_pool: &ConstantPool, n: u16) -> (r: Result<
    Vec<AttributeInfo>,
    DecodeError,
>)
    requires
        old(reader).wf(),
    ensures
        final(reader).wf(),
        final(reader).same_source(old(reader)),
        agrees_views(r, final(reader).spec_pos(), parse_attributes(old(reader).spec_data(), old(reader).spec_limit(), old(reader).spec_pos(), n as int, constant_pool@)),
        r is Ok ==> final(reader).spec_pos() >= old(reader).spec_pos(),
    decreases old(reader).spec_limit() - old(reader).spec_pos() + 1,
{
    let mut attributes: Vec<AttributeInfo> = Vec::new();
    let mut i: u16 = 0;
    proof {
        lemma_prepend_empty(parse_attributes(old(reader).spec_data(), old(reader).spec_limit(), old(reader).spec_pos(), n as int, constant_pool@));
    }
    while i < n
        invariant
            reader.wf(),
            reader.same_source(old(reader)),
            reader.spec_pos() >= old(reader).spec_pos(),
            i <= n,
            parse_attributes(old(reader).spec_data(), old(reader).spec_limit(), old(reader).spec_pos(), n as int, constant_pool@) == prepend(
                views(attributes@),
                parse_attributes(reader.spec_data(), reader.spec_limit(), reader.spec_pos(), n - i, constant_pool@),
            ),
        decreases n - i,
    {
        let ghost before = views(attributes@);
        let a = AttributeInfo::new(reader, constant_pool)?;
        proof {
            lemma_prepend_cons(
                before,
                a@,
                parse_attributes(reader.spec_data(), reader.spec_limit(), reader.spec_pos(), n - i - 1, constant_pool@),
            );
        }
        attributes.push(a);
        proof {
            assert(views(attributes@) =~= before.push(a@));
        }
        i += 1;
    }
    proof {
        assert(views(attributes@) + Seq::empty() =~= views(attributes@));
    }
    Ok(attributes)
}

/// Reads `n` record components
fn read_record_components(reader: &mut ByteReader, constant_pool: &ConstantPool, n: u16) -> (r: Result<
    Vec<RecordComponentInfo>,
    DecodeError,
>)
    requires
        old(reader).wf(),
    ensures
        final(reader).wf(),
        final(reader).same_source(old(reader)),
        agrees_views(r, final(reader).spec_pos(), parse_record_components(old(reader).spec_data(), old(reader).spec_limit(), old(reader).spec_pos(), n as int, constant_pool@)),
    decreases old(reader).spec_limit() - old(reader).spec_pos() + 1,
{
    let mut components: Vec<RecordComponentInfo> = Vec::new();
    let mut i: u16 = 0;
    proof {
        lemma_prepend_empty(parse_record_components(old(reader).spec_data(), old(reader).spec_limit(), old(reader).spec_pos(), n as int, constant_pool@));
    }
    while i < n
        invariant
            reader.wf(),
            reader.same_source(old(reader)),
            reader.spec_pos() >= old(reader).spec_pos(),
            i <= n,
            parse_record_components(old(reader).spec_data(), old(reader).spec_limit(), old(reader).spec_pos(), n as int, constant_pool@) == prepend(
                views(components@),
                parse_record_components(reader.spec_data(), reader.spec_limit(), reader.spec_pos(), n - i, constant_pool@),
            ),
        decreases n - i,
    {
        let ghost before = views(components@);
        let name_index = reader.read_u16()?;
        let descriptor_index = reader.read_u16()?;
        let count = reader.read_u16()?;
        let attributes = read_attributes(reader, constant_pool, count)?;
        let c = RecordComponentInfo { name_index, descriptor_index, attributes };
        proof {
            assert(c@.attributes =~= views(attributes@));
            lemma_prepend_cons(
                before,
                c@,
                parse_record_components(reader.spec_data(), reader.spec_limit(), reader.spec_pos(), n - i - 1, constant_pool@),
            );
        }
        components.push(c);
        proof {
            assert(views(components@) =~= before.push(c@));
        }
        i += 1;
    }
    proof {
        assert(views(components@) + Seq::empty() =~= views(components@));
    }
    Ok(components)
}

impl AttributeInfo {
    /// Create a new attribute from a class file binary blob
    pub fn new(reader: &mut ByteReader, constant_pool: &ConstantPool) -> (r: Result<AttributeInfo, DecodeError>)
        requires
            old(reader).wf(),
        ensures
            final(reader).wf(),
            final(reader).same_source(old(reader)),
            agrees_view(r, final(reader).spec_pos(), parse_attribute(old(reader).spec_data(), old(reader).spec_limit(), old(reader).spec_pos(), constant_pool@)),
            r is Ok ==> final(reader).spec_pos() > old(reader).spec_pos(),
        decreases old(reader).spec_limit() - old(reader).spec_pos(),
    {
        let start = reader.position();
        let attribute_name_index = reader.read_u16()?;
        let attribute_length = reader.read_u32()?;
        let name = match constant_pool.as_utf8(attribute_name_index) {
            Some(u) => u,
            None => {
                return Err(DecodeError { kind: ErrorKind::BadAttributeName, offset: start });
            },
        };
        let attribute_type = match attribute_type_of(&name.string) {
            Some(t) => t,
            None => {
                return Err(DecodeError { kind: ErrorKind::UnknownAttribute, offset: start });
            },
        };
        let payload_start = reader.position();
        let saved = reader.limit();
        if attribute_length as usize > saved - payload_start {
            return Err(reader.overrun_error(attribute_length as usize));
        }
        let end = payload_start + attribute_length as usize;
        reader.set_limit(end);
        let data = Self::read_payload(reader, constant_pool, attribute_type, attribute_name_index, attribute_length);
        let consumed_to = reader.position();
        reader.set_limit(saved);
        let data = match data {
            Ok(data) => data,
            Err(err) => {
                let kind = if err.kind == ErrorKind::UnexpectedEof {
                    ErrorKind::LengthMismatch
                } else {
                    err.kind
                };
                return Err(DecodeError { kind, offset: err.offset });
            },
        };
        if consumed_to != end {
            return Err(DecodeError { kind: ErrorKind::LengthMismatch, offset: start });
        }
        Ok(AttributeInfo { attribute_type, data })
    }

    /// Reads the payload of an attribute of the given type
    fn read_payload(
        reader: &mut ByteReader,
        constant_pool: &ConstantPool,
        attribute_type: AttributeType,
        attribute_name_index: u16,
        attribute_length: u32,
    ) -> (r: Result<AttributeData, DecodeError>)
        requires
            old(reader).wf(),
        ensures
            final(reader).wf(),
            final(reader).same_source(old(reader)),
            agrees_view(
                r,
                final(reader).spec_pos(),
                parse_payload(old(reader).spec_data(), old(reader).spec_limit(), old(reader).spec_pos(), attribute_type, attribute_name_index, attribute_length, constant_pool@),
            ),
        decreases old(reader).spec_limit() - old(reader).spec_pos() + 3,
    {
        match attribute_type {
            AttributeType::ConstantValue => Ok(
                AttributeData::ConstantValue(Self::read_data_as_constant_value(reader, attribute_name_index, attribute_length)?),
            ),
            AttributeType::Code => Ok(
                AttributeData::Code(Self::read_data_as_code(reader, attribute_name_index, attribute_length, constant_pool)?),
            ),
            AttributeType::StackMapTable => Ok(
                AttributeData::StackMapTable(Self::read_data_as_stack_map_table(reader, attribute_name_index, attribute_length)?),
            ),
            AttributeType::Exceptions => Ok(
                AttributeData::Exceptions(Self::read_data_as_exceptions(reader, attribute_name_index, attribute_length)?),
            ),
            AttributeType::InnerClasses => Ok(
                AttributeData::InnerClasses(Self::read_data_as_inner_classes(reader, attribute_name_index, attribute_length)?),
            ),
            AttributeType::EnclosingMethod => Ok(
                AttributeData::EnclosingMethod(Self::read_data_as_enclosing_method(reader, attribute_name_index, attribute_length)?),
            ),
            AttributeType::Synthetic => Ok(
                AttributeData::Synthetic(Self::read_data_as_synthetic(reader, attribute_name_index, attribute_length)?),
            ),
            AttributeType::Signature => Ok(
                AttributeData::Signature(Self::read_data_as_signature(reader, attribute_name_index, attribute_length)?),
            ),
            AttributeType::SourceFile => Ok(
                AttributeData::SourceFile(Self::read_data_as_source_file(reader, attribute_name_index, attribute_length)?),
            ),
            AttributeType::SourceDebugExtension => Ok(
                AttributeData::SourceDebugExtension(Self::read_data_as_source_debug_extension(reader, attribute_name_index, attribute_length)?),
            ),
            AttributeType::LineNumberTable => Ok(
                AttributeData::LineNumberTable(Self::read_data_as_line_number_table(reader, attribute_name_index, attribute_length)?),
            ),
            AttributeType::LocalVariableTable => Ok(
                AttributeData::LocalVariableTable(Self::read_data_as_local_variable_table(reader, attribute_name_index, attribute_length)?),
            ),
            AttributeType::LocalVariableTypeTable => Ok(
                AttributeData::LocalVariableTypeTable(Self::read_data_as_local_variable_type_table(reader, attribute_name_index, attribute_length)?),
            ),
            AttributeType::Deprecated => Ok(
                AttributeData::Deprecated(Self::read_data_as_deprecated(reader, attribute_name_index, attribute_length)?),
            ),
            AttributeType::RuntimeVisibleAnnotations => Ok(
                AttributeData::RuntimeVisibleAnnotations(Self::read_data_as_runtime_visible_annotations(reader, attribute_name_index, attribute_length)?),
            ),
            AttributeType::RuntimeInvisibleAnnotations => Ok(
                AttributeData::RuntimeInvisibleAnnotations(Self::read_data_as_runtime_invisible_annotations(reader, attribute_name_index, attribute_length)?),
            ),
            AttributeType::RuntimeVisibleParameterAnnotations => Ok(
                AttributeData::RuntimeVisibleParameterAnnotations(Self::read_data_as_runtime_visible_parameter_annotations(reader, attribute_name_index, attribute_length)?),
            ),
            AttributeType::RuntimeInvisibleParameterAnnotations => Ok(
                AttributeData::RuntimeInvisibleParameterAnnotations(Self::read_data_as_runtime_invisible_parameter_annotations(reader, attribute_name_index, attribute_length)?),
            ),
            AttributeType::RuntimeVisibleTypeAnnotations => Ok(
                AttributeData::RuntimeVisibleTypeAnnotations(Self::read_data_as_runtime_visible_type_annotations(reader, attribute_name_index, attribute_length)?),
            ),
            AttributeType::RuntimeInvisibleTypeAnnotations => Ok(
                AttributeData::RuntimeInvisibleTypeAnnotations(Self::read_data_as_runtime_invisible_type_annotations(reader, attribute_name_index, attribute_length)?),
            ),
            AttributeType::AnnotationDefault => Ok(
                AttributeData::AnnotationDefault(Self::read_data_as_annotation_default(reader, attribute_name_index, attribute_length)?),
            ),
            AttributeType::BootstrapMethods => Ok(
                AttributeData::BootstrapMethods(Self::read_data_as_bootstrap_methods(reader, attribute_name_index, attribute_length)?),
            ),
            AttributeType::MethodParameters => Ok(
                AttributeData::MethodParameters(Self::read_data_as_method_parameters(reader, attribute_name_index, attribute_length)?),
            ),
            AttributeType::Module => Ok(
                AttributeData::Module(Self::read_data_as_module(reader, attribute_name_index, attribute_length)?),
            ),
            AttributeType::ModulePackages => Ok(
                AttributeData::ModulePackages(Self::read_data_as_module_packages(reader, attribute_name_index, attribute_length)?),
            ),
            AttributeType::ModuleMainClass => Ok(
                AttributeData::ModuleMainClass(Self::read_data_as_module_main_class(reader, attribute_name_index, attribute_length)?),
            ),
            AttributeType::NestHost => Ok(
                AttributeData::NestHost(Self::read_data_as_nest_host(reader, attribute_name_index, attribute_length)?),
            ),
            AttributeType::NestMembers => Ok(
                AttributeData::NestMembers(Self::read_data_as_nest_members(reader, attribute_name_index, attribute_length)?),
            ),
            AttributeType::Record => Ok(
                AttributeData::Record(Self::read_data_as_record(reader, attribute_name_index, attribute_length, constant_pool)?),
            ),
            AttributeType::PermittedSubclasses => Ok(
                AttributeData::PermittedSubclasses(Self::read_data_as_permitted_subclasses(reader, attribute_name_index, attribute_length)?),
            ),
        }
    }

    /// Read the data blob as a code attribute
    fn read_data_as_code(
        reader: &mut ByteReader,
        attribute_name_index: u16,
        attribute_length: u32,
        constant_pool: &ConstantPool,
    ) -> (r: Result<AttributeCode, DecodeError>)
        requires
            old(reader).wf(),
        ensures
            final(reader).wf(),
            final(reader).same_source(old(reader)),
            agrees_view(
                r,
                final(reader).spec_pos(),
                parse_code(old(reader).spec_data(), old(reader).spec_limit(), old(reader).spec_pos(), attribute_name_index, attribute_length, constant_pool@),
            ),
        decreases old(reader).spec_limit() - old(reader).spec_pos() + 2,
    {
        let max_stack = reader.read_u16()?;
        let max_locals = reader.read_u16()?;
        let code_length = reader.read_u32()?;
        let code = reader.read_n_bytes(code_length as usize)?;
        let exception_count = reader.read_u16()?;
        let exception_table = read_exception_table(reader, exception_count)?;
        let attributes_count = reader.read_u16()?;
        let attributes = read_attributes(reader, constant_pool, attributes_count)?;
        let c = AttributeCode {
            attribute_name_index,
            attribute_length,
            max_stack,
            max_locals,
            code,
            exception_table,
            attributes,
        };
        proof {
            lemma_code_view_attributes(&c);
        }
        Ok(c)
    }

    /// Read the data blob as a record attribute
    fn read_data_as_record(
        reader: &mut ByteReader,
        attribute_name_index: u16,
        attribute_length: u32,
        constant_pool: &ConstantPool,
    ) -> (r: Result<AttributeRecord, DecodeError>)
        requires
            old(reader).wf(),
        ensures
            final(reader).wf(),
            final(reader).same_source(old(reader)),
            agrees_view(
                r,
                final(reader).spec_pos(),
                parse_record(old(reader).spec_data(), old(reader).spec_limit(), old(reader).spec_pos(), attribute_name_index, attribute_length, constant_pool@),
            ),
        decreases old(reader).spec_limit() - old(reader).spec_pos() + 2,
    {
        let n = reader.read_u16()?;
        let components = read_record_components(reader, constant_pool, n)?;
        let r = AttributeRecord { attribute_name_index, attribute_length, components };
        proof {
            assert(r@.components =~= views(components@));
        }
        Ok(r)
    }

    /// Read the data blob as a ConstantValue attribute
    fn read_data_as_constant_value(
        reader: &mut ByteReader,
        attribute_name_index: u16,
        attribute_length: u32,
    ) -> (r: Result<AttributeConstantValue, DecodeError>)
        requires
            old(reader).wf(),
        ensures
            final(reader).wf(),
            final(reader).same_source(old(reader)),
            agrees(
                r,
                final(reader).spec_pos(),
                parse_constant_value(old(reader).spec_data(), old(reader).spec_limit(), old(reader).spec_pos(), attribute_name_index, attribute_length),
            ),
    {
        proof {
            reveal(parse_constant_value);
        }
        let constantvalue_index = reader.read_u16()?;
        Ok(AttributeConstantValue { attribute_name_index, attribute_length, constantvalue_index })
    }

    /// Read the data blob as a StackMapTable attribute
    fn read_data_as_stack_map_table(
        reader: &mut ByteReader,
        attribute_name_index: u16,
        attribute_length: u32,
    ) -> (r: Result<AttributeStackMapTable, DecodeError>)
        requires
            old(reader).wf(),
        ensures
            final(reader).wf(),
            final(reader).same_source(old(reader)),
            agrees_view(
                r,
                final(reader).spec_pos(),
                parse_stack_map_table(old(reader).spec_data(), old(reader).spec_limit(), old(reader).spec_pos(), attribute_name_index, attribute_length),
            ),
    {
        proof {
            reveal(parse_stack_map_table);
        }
        let entries_count = reader.read_u16()?;
        let entries = read_stack_map_frames(reader, entries_count)?;
        Ok(AttributeStackMapTable { attribute_name_index, attribute_length, entries })
    }

    /// Read the data blob as a Exceptions attribute
    fn read_data_as_exceptions(
        reader: &mut ByteReader,
        attribute_name_index: u16,
        attribute_length: u32,
    ) -> (r: Result<AttributeExceptions, DecodeError>)
        requires
            old(reader).wf(),
        ensures
            final(reader).wf(),
            final(reader).same_source(old(reader)),
            agrees_view(
                r,
                final(reader).spec_pos(),
                parse_exceptions(old(reader).spec_data(), old(reader).spec_limit(), old(reader).spec_pos(), attribute_name_index, attribute_length),
            ),
    {
        proof {
            reveal(parse_exceptions);
        }
        let number_of_exceptions = reader.read_u16()?;
        let exception_index_table = reader.read_u16_table(number_of_exceptions)?;
        Ok(AttributeExceptions { attribute_name_index, attribute_length, number_of_exceptions, exception_index_table })
    }

    /// Read the data blob as a InnerClasses attribute
    fn read_data_as_inner_classes(
        reader: &mut ByteReader,
        attribute_name_index: u16,
        attribute_length: u32,
    ) -> (r: Result<AttributeInnerClasses, DecodeError>)
        requires
            old(reader).wf(),
        ensures
            final(reader).wf(),
            final(reader).same_source(old(reader)),
            agrees_view(
                r,
                final(reader).spec_pos(),
                parse_inner_classes(old(reader).spec_data(), old(reader).spec_limit(), old(reader).spec_pos(), attribute_name_index, attribute_length),
            ),
    {
        proof {
            reveal(parse_inner_classes);
        }
        let classes_count = reader.read_u16()?;
        let classes = read_inner_class_table(reader, classes_count)?;
        Ok(AttributeInnerClasses { attribute_name_index, attribute_length, classes })
    }

    /// Read the data blob as a EnclosingMethod attribute
    fn read_data_as_enclosing_method(
        reader: &mut ByteReader,
        attribute_name_index: u16,
        attribute_length: u32,
    ) -> (r: Result<AttributeEnclosingMethod, DecodeError>)
        requires
            old(reader).wf(),
        ensures
            final(reader).wf(),
            final(reader).same_source(old(reader)),
            agrees(
                r,
                final(reader).spec_pos(),
                parse_enclosing_method(old(reader).spec_data(), old(reader).spec_limit(), old(reader).spec_pos(), attribute_name_index, attribute_length),
            ),
    {
        proof {
            reveal(parse_enclosing_method);
        }
        let class_index = reader.read_u16()?;
        let method_index = reader.read_u16()?;
        Ok(AttributeEnclosingMethod { attribute_name_index, attribute_length, class_index, method_index })
    }

    /// Read the data blob as a Synthetic attribute
    fn read_data_as_synthetic(
        reader: &mut ByteReader,
        attribute_name_index: u16,
        attribute_length: u32,
    ) -> (r: Result<AttributeSynthetic, DecodeError>)
        requires
            old(reader).wf(),
        ensures
            final(reader).wf(),
            final(reader).same_source(old(reader)),
            agrees(
                r,
                final(reader).spec_pos(),
                parse_synthetic(old(reader).spec_data(), old(reader).spec_limit(), old(reader).spec_pos(), attribute_name_index, attribute_length),
            ),
    {
        proof {
            reveal(parse_synthetic);
        }
        Ok(AttributeSynthetic { attribute_name_index, attribute_length })
    }

    /// Read the data blob as a Signature attribute
    fn read_data_as_signature(
        reader: &mut ByteReader,
        attribute_name_index: u16,
        attribute_length: u32,
    ) -> (r: Result<AttributeSignature, DecodeError>)
        requires
            old(reader).wf(),
        ensures
            final(reader).wf(),
            final(reader).same_source(old(reader)),
            agrees(
                r,
                final(reader).spec_pos(),
                parse_signature(old(reader).spec_data(), old(reader).spec_limit(), old(reader).spec_pos(), attribute_name_index, attribute_length),
            ),
    {
        proof {
            reveal(parse_signature);
        }
        let signature_index = reader.read_u16()?;
        Ok(AttributeSignature { attribute_name_index, attribute_length, signature_index })
    }

    /// Read the data blob as a SourceFile attribute
    fn read_data_as_source_file(
        reader: &mut ByteReader,
        attribute_name_index: u16,
        attribute_length: u32,
    ) -> (r: Result<AttributeSourceFile, DecodeError>)
        requires
            old(reader).wf(),
        ensures
            final(reader).wf(),
            final(reader).same_source(old(reader)),
            agrees(
                r,
                final(reader).spec_pos(),
                parse_source_file(old(reader).spec_data(), old(reader).spec_limit(), old(reader).spec_pos(), attribute_name_index, attribute_length),
            ),
    {
        proof {
            reveal(parse_source_file);
        }
        let sourcefile_index = reader.read_u16()?;
        Ok(AttributeSourceFile { attribute_name_index, attribute_length, sourcefile_index })
    }

    /// Read the data blob as a SourceDebugExtension attribute
    fn read_data_as_source_debug_extension(
        reader: &mut ByteReader,
        attribute_name_index: u16,
        attribute_length: u32,
    ) -> (r: Result<AttributeSourceDebugExtension, DecodeError>)
        requires
            old(reader).wf(),
        ensures
            final(reader).wf(),
            final(reader).same_source(old(reader)),
            agrees_view(
                r,
                final(reader).spec_pos(),
                parse_source_debug_extension(old(reader).spec_data(), old(reader).spec_limit(), old(reader).spec_pos(), attribute_name_index, attribute_length),
            ),
    {
        proof {
            reveal(parse_source_debug_extension);
        }
        let debug_extension = reader.read_n_bytes(attribute_length as usize)?;
        Ok(AttributeSourceDebugExtension { attribute_name_index, attribute_length, debug_extension })
    }

    /// Read the data blob as a LineNumberTable attribute
    fn read_data_as_line_number_table(
        reader: &mut ByteReader,
        attribute_name_index: u16,
        attribute_length: u32,
    ) -> (r: Result<AttributeLineNumberTable, DecodeError>)
        requires
            old(reader).wf(),
        ensures
            final(reader).wf(),
            final(reader).same_source(old(reader)),
            agrees_view(
                r,
                final(reader).spec_pos(),
                parse_line_number_table(old(reader).spec_data(), old(reader).spec_limit(), old(reader).spec_pos(), attribute_name_index, attribute_length),
            ),
    {
        proof {
            reveal(parse_line_number_table);
        }
        let line_number_table_count = reader.read_u16()?;
        let line_number_table = read_line_number_table(reader, line_number_table_count)?;
        Ok(AttributeLineNumberTable { attribute_name_index, attribute_length, line_number_table })
    }

    /// Read the data blob as a LocalVariableTable attribute
    fn read_data_as_local_variable_table(
        reader: &mut ByteReader,
        attribute_name_index: u16,
        attribute_length: u32,
    ) -> (r: Result<AttributeLocalVariableTable, DecodeError>)
        requires
            old(reader).wf(),
        ensures
            final(reader).wf(),
            final(reader).same_source(old(reader)),
            agrees_view(
                r,
                final(reader).spec_pos(),
                parse_local_variable_table(old(reader).spec_data(), old(reader).spec_limit(), old(reader).spec_pos(), attribute_name_index, attribute_length),
            ),
    {
        proof {
            reveal(parse_local_variable_table);
        }
        let local_variable_table_count = reader.read_u16()?;
        let local_variable_table = read_local_variable_table(reader, local_variable_table_count)?;
        Ok(AttributeLocalVariableTable { attribute_name_index, attribute_length, local_variable_table })
    }

    /// Read the data blob as a LocalVariableTypeTable attribute
    fn read_data_as_local_variable_type_table(
        reader: &mut ByteReader,
        attribute_name_index: u16,
        attribute_length: u32,
    ) -> (r: Result<AttributeLocalVariableTypeTable, DecodeError>)
        requires
            old(reader).wf(),
        ensures
            final(reader).wf(),
            final(reader).same_source(old(reader)),
            agrees_view(
                r,
                final(reader).spec_pos(),
                parse_local_variable_type_table(old(reader).spec_data(), old(reader).spec_limit(), old(reader).spec_pos(), attribute_name_index, attribute_length),
            ),
    {
        proof {
            reveal(parse_local_variable_type_table);
        }
        let local_variable_type_table_count = reader.read_u16()?;
        let local_variable_type_table = read_local_variable_type_table(reader, local_variable_type_table_count)?;
        Ok(AttributeLocalVariableTypeTable { attribute_name_index, attribute_length, local_variable_type_table })
    }

    /// Read the data blob as a Deprecated attribute
    fn read_data_as_deprecated(
        reader: &mut ByteReader,
        attribute_name_index: u16,
        attribute_length: u32,
    ) -> (r: Result<AttributeDeprecated, DecodeError>)
        requires
            old(reader).wf(),
        ensures
            final(reader).wf(),
            final(reader).same_source(old(reader)),
            agrees(
                r,
                final(reader).spec_pos(),
                parse_deprecated(old(reader).spec_data(), old(reader).spec_limit(), old(reader).spec_pos(), attribute_name_index, attribute_length),
            ),
    {
        proof {
            reveal(parse_deprecated);
        }
        Ok(AttributeDeprecated { attribute_name_index, attribute_length })
    }

    /// Read the data blob as a RuntimeVisibleAnnotations attribute
    fn read_data_as_runtime_visible_annotations(
        reader: &mut ByteReader,
        attribute_name_index: u16,
        attribute_length: u32,
    ) -> (r: Result<AttributeRuntimeVisibleAnnotations, DecodeError>)
        requires
            old(reader).wf(),
        ensures
            final(reader).wf(),
            final(reader).same_source(old(reader)),
            agrees_view(
                r,
                final(reader).spec_pos(),
                parse_runtime_visible_annotations(old(reader).spec_data(), old(reader).spec_limit(), old(reader).spec_pos(), attribute_name_index, attribute_length),
            ),
    {
        proof {
            reveal(parse_runtime_visible_annotations);
        }
        let annotations_count = reader.read_u16()?;
        let annotations = read_annotations(reader, annotations_count)?;
        Ok(AttributeRuntimeVisibleAnnotations { attribute_name_index, attribute_length, annotations })
    }

    /// Read the data blob as a RuntimeInvisibleAnnotations attribute
    fn read_data_as_runtime_invisible_annotations(
        reader: &mut ByteReader,
        attribute_name_index: u16,
        attribute_length: u32,
    ) -> (r: Result<AttributeRuntimeInvisibleAnnotations, DecodeError>)
        requires
            old(reader).wf(),
        ensures
            final(reader).wf(),
            final(reader).same_source(old(reader)),
            agrees_view(
                r,
                final(reader).spec_pos(),
                parse_runtime_invisible_annotations(old(reader).spec_data(), old(reader).spec_limit(), old(reader).spec_pos(), attribute_name_index, attribute_length),
            ),
    {
        proof {
            reveal(parse_runtime_invisible_annotations);
        }
        let annotations_count = reader.read_u16()?;
        let annotations = read_annotations(reader, annotations_count)?;
        Ok(AttributeRuntimeInvisibleAnnotations { attribute_name_index, attribute_length, annotations })
    }

    /// Read the data blob as a RuntimeVisibleParameterAnnotations attribute
    fn read_data_as_runtime_visible_parameter_annotations(
        reader: &mut ByteReader,
        attribute_name_index: u16,
        attribute_length: u32,
    ) -> (r: Result<AttributeRuntimeVisibleParameterAnnotations, DecodeError>)
        requires
            old(reader).wf(),
        ensures
            final(reader).wf(),
            final(reader).same_source(old(reader)),
            agrees_view(
                r,
                final(reader).spec_pos(),
                parse_runtime_visible_parameter_annotations(old(reader).spec_data(), old(reader).spec_limit(), old(reader).spec_pos(), attribute_name_index, attribute_length),
            ),
    {
        proof {
            reveal(parse_runtime_visible_parameter_annotations);
        }
        let parameter_annotations_count = reader.read_u8()?;
        let parameter_annotations = read_parameter_annotations(reader, parameter_annotations_count as u16)?;
        Ok(AttributeRuntimeVisibleParameterAnnotations { attribute_name_index, attribute_length, parameter_annotations })
    }

    /// Read the data blob as a RuntimeInvisibleParameterAnnotations attribute
    fn read_data_as_runtime_invisible_parameter_annotations(
        reader: &mut ByteReader,
        attribute_name_index: u16,
        attribute_length: u32,
    ) -> (r: Result<AttributeRuntimeInvisibleParameterAnnotations, DecodeError>)
        requires
            old(reader).wf(),
        ensures
            final(reader).wf(),
            final(reader).same_source(old(reader)),
            agrees_view(
                r,
                final(reader).spec_pos(),
                parse_runtime_invisible_parameter_annotations(old(reader).spec_data(), old(reader).spec_limit(), old(reader).spec_pos(), attribute_name_index, attribute_length),
            ),
    {
        proof {
            reveal(parse_runtime_invisible_parameter_annotations);
        }
        let parameter_annotations_count = reader.read_u8()?;
        let parameter_annotations = read_parameter_annotations(reader, parameter_annotations_count as u16)?;
        Ok(AttributeRuntimeInvisibleParameterAnnotations { attribute_name_index, attribute_length, parameter_annotations })
    }

    /// Read the data blob as a RuntimeVisibleTypeAnnotations attribute
    fn read_data_as_runtime_visible_type_annotations(
        reader: &mut ByteReader,
        attribute_name_index: u16,
        attribute_length: u32,
    ) -> (r: Result<AttributeRuntimeVisibleTypeAnnotations, DecodeError>)
        requires
            old(reader).wf(),
        ensures
            final(reader).wf(),
            final(reader).same_source(old(reader)),
            agrees_view(
                r,
                final(reader).spec_pos(),
                parse_runtime_visible_type_annotations(old(reader).spec_data(), old(reader).spec_limit(), old(reader).spec_pos(), attribute_name_index, attribute_length),
            ),
    {
        proof {
            reveal(parse_runtime_visible_type_annotations);
        }
        let annotations_count = reader.read_u16()?;
        let annotations = read_type_annotations(reader, annotations_count)?;
        Ok(AttributeRuntimeVisibleTypeAnnotations { attribute_name_index, attribute_length, annotations })
    }

    /// Read the data blob as a RuntimeInvisibleTypeAnnotations attribute
    fn read_data_as_runtime_invisible_type_annotations(
        reader: &mut ByteReader,
        attribute_name_index: u16,
        attribute_length: u32,
    ) -> (r: Result<AttributeRuntimeInvisibleTypeAnnotations, DecodeError>)
        requires
            old(reader).wf(),
        ensures
            final(reader).wf(),
            final(reader).same_source(old(reader)),
            agrees_view(
                r,
                final(reader).spec_pos(),
                parse_runtime_invisible_type_annotations(old(reader).spec_data(), old(reader).spec_limit(), old(reader).spec_pos(), attribute_name_index, attribute_length),
            ),
    {
        proof {
            reveal(parse_runtime_invisible_type_annotations);
        }
        let annotations_count = reader.read_u16()?;
        let annotations = read_type_annotations(reader, annotations_count)?;
        Ok(AttributeRuntimeInvisibleTypeAnnotations { attribute_name_index, attribute_length, annotations })
    }

    /// Read the data blob as a AnnotationDefault attribute
    fn read_data_as_annotation_default(
        reader: &mut ByteReader,
        attribute_name_index: u16,
        attribute_length: u32,
    ) -> (r: Result<AttributeAnnotationDefault, DecodeError>)
        requires
            old(reader).wf(),
        ensures
            final(reader).wf(),
            final(reader).same_source(old(reader)),
            agrees_view(
                r,
                final(reader).spec_pos(),
                parse_annotation_default(old(reader).spec_data(), old(reader).spec_limit(), old(reader).spec_pos(), attribute_name_index, attribute_length),
            ),
    {
        proof {
            reveal(parse_annotation_default);
        }
        let default_value = read_element_value(reader)?;
        Ok(AttributeAnnotationDefault { attribute_name_index, attribute_length, default_value })
    }

    /// Read the data blob as a BootstrapMethods attribute
    fn read_data_as_bootstrap_methods(
        reader: &mut ByteReader,
        attribute_name_index: u16,
        attribute_length: u32,
    ) -> (r: Result<AttributeBootstrapMethods, DecodeError>)
        requires
            old(reader).wf(),
        ensures
            final(reader).wf(),
            final(reader).same_source(old(reader)),
            agrees_view(
                r,
                final(reader).spec_pos(),
                parse_bootstrap_methods(old(reader).spec_data(), old(reader).spec_limit(), old(reader).spec_pos(), attribute_name_index, attribute_length),
            ),
    {
        proof {
            reveal(parse_bootstrap_methods);
        }
        let bootstrap_methods_count = reader.read_u16()?;
        let bootstrap_methods = read_bootstrap_method_list(reader, bootstrap_methods_count)?;
        Ok(AttributeBootstrapMethods { attribute_name_index, attribute_length, bootstrap_methods })
    }

    /// Read the data blob as a MethodParameters attribute
    fn read_data_as_method_parameters(
        reader: &mut ByteReader,
        attribute_name_index: u16,
        attribute_length: u32,
    ) -> (r: Result<AttributeMethodParameters, DecodeError>)
        requires
            old(reader).wf(),
        ensures
            final(reader).wf(),
            final(reader).same_source(old(reader)),
            agrees_view(
                r,
                final(reader).spec_pos(),
                parse_method_parameters(old(reader).spec_data(), old(reader).spec_limit(), old(reader).spec_pos(), attribute_name_index, attribute_length),
            ),
    {
        proof {
            reveal(parse_method_parameters);
        }
        let parameters_count = reader.read_u8()?;
        let parameters = read_method_parameter_table(reader, parameters_count as u16)?;
        Ok(AttributeMethodParameters { attribute_name_index, attribute_length, parameters })
    }

    /// Read the data blob as a Module attribute
    fn read_data_as_module(
        reader: &mut ByteReader,
        attribute_name_index: u16,
        attribute_length: u32,
    ) -> (r: Result<AttributeModule, DecodeError>)
        requires
            old(reader).wf(),
        ensures
            final(reader).wf(),
            final(reader).same_source(old(reader)),
            agrees_view(
                r,
                final(reader).spec_pos(),
                parse_module(old(reader).spec_data(), old(reader).spec_limit(), old(reader).spec_pos(), attribute_name_index, attribute_length),
            ),
    {
        proof {
            reveal(parse_module);
        }
        let module_name_index = reader.read_u16()?;
        let module_flags_mask = reader.read_u16()?;
        let module_version_index = reader.read_u16()?;
        let module_requires_count = reader.read_u16()?;
        let module_requires = read_module_requires_table(reader, module_requires_count)?;
        let exports_count = reader.read_u16()?;
        let exports = read_module_exports(reader, exports_count)?;
        let opens_count = reader.read_u16()?;
        let opens = read_module_opens(reader, opens_count)?;
        let uses_index = reader.read_u16_list()?;
        let provides_count = reader.read_u16()?;
        let provides = read_module_provides(reader, provides_count)?;
        Ok(AttributeModule { attribute_name_index, attribute_length, module_name_index, module_flags: ModuleFlags::from_u16(module_flags_mask), module_version_index, module_requires, exports, opens, uses_index, provides })
    }

    /// Read the data blob as a ModulePackages attribute
    fn read_data_as_module_packages(
        reader: &mut ByteReader,
        attribute_name_index: u16,
        attribute_length: u32,
    ) -> (r: Result<AttributeModulePackages, DecodeError>)
        requires
            old(reader).wf(),
        ensures
            final(reader).wf(),
            final(reader).same_source(old(reader)),
            agrees_view(
                r,
                final(reader).spec_pos(),
                parse_module_packages(old(reader).spec_data(), old(reader).spec_limit(), old(reader).spec_pos(), attribute_name_index, attribute_length),
            ),
    {
        proof {
            reveal(parse_module_packages);
        }
        let package_index = reader.read_u16_list()?;
        Ok(AttributeModulePackages { attribute_name_index, attribute_length, package_index })
    }

    /// Read the data blob as a ModuleMainClass attribute
    fn read_data_as_module_main_class(
        reader: &mut ByteReader,
        attribute_name_index: u16,
        attribute_length: u32,
    ) -> (r: Result<AttributeModuleMainClass, DecodeError>)
        requires
            old(reader).wf(),
        ensures
            final(reader).wf(),
            final(reader).same_source(old(reader)),
            agrees(
                r,
                final(reader).spec_pos(),
                parse_module_main_class(old(reader).spec_data(), old(reader).spec_limit(), old(reader).spec_pos(), attribute_name_index, attribute_length),
            ),
    {
        proof {
            reveal(parse_module_main_class);
        }
        let main_class_index = reader.read_u16()?;
        Ok(AttributeModuleMainClass { attribute_name_index, attribute_length, main_class_index })
    }

    /// Read the data blob as a NestHost attribute
    fn read_data_as_nest_host(
        reader: &mut ByteReader,
        attribute_name_index: u16,
        attribute_length: u32,
    ) -> (r: Result<AttributeNestHost, DecodeError>)
        requires
            old(reader).wf(),
        ensures
            final(reader).wf(),
            final(reader).same_source(old(reader)),
            agrees(
                r,
                final(reader).spec_pos(),
                parse_nest_host(old(reader).spec_data(), old(reader).spec_limit(), old(reader).spec_pos(), attribute_name_index, attribute_length),
            ),
    {
        proof {
            reveal(parse_nest_host);
        }
        let host_class_index = reader.read_u16()?;
        Ok(AttributeNestHost { attribute_name_index, attribute_length, host_class_index })
    }

    /// Read the data blob as a NestMembers attribute
    fn read_data_as_nest_members(
        reader: &mut ByteReader,
        attribute_name_index: u16,
        attribute_length: u32,
    ) -> (r: Result<AttributeNestMembers, DecodeError>)
        requires
            old(reader).wf(),
        ensures
            final(reader).wf(),
            final(reader).same_source(old(reader)),
            agrees_view(
                r,
                final(reader).spec_pos(),
                parse_nest_members(old(reader).spec_data(), old(reader).spec_limit(), old(reader).spec_pos(), attribute_name_index, attribute_length),
            ),
    {
        proof {
            reveal(parse_nest_members);
        }
        let classes = reader.read_u16_list()?;
        Ok(AttributeNestMembers { attribute_name_index, attribute_length, classes })
    }

    /// Read the data blob as a PermittedSubclasses attribute
    fn read_data_as_permitted_subclasses(
        reader: &mut ByteReader,
        attribute_name_index: u16,
        attribute_length: u32,
    ) -> (r: Result<AttributePermittedSubclasses, DecodeError>)
        requires
            old(reader).wf(),
        ensures
            final(reader).wf(),
            final(reader).same_source(old(reader)),
            agrees_view(
                r,
                final(reader).spec_pos(),
                parse_permitted_subclasses(old(reader).spec_data(), old(reader).spec_limit(), old(reader).spec_pos(), attribute_name_index, attribute_length),
            ),
    {
        proof {
            reveal(parse_permitted_subclasses);
        }
        let classes = reader.read_u16_list()?;
        Ok(AttributePermittedSubclasses { attribute_name_index, attribute_length, classes })
    }
}

/// An attribute that decodes takes exactly its six header bytes and the length
/// it declares, and its name index resolves to a UTF-8 constant.
pub proof fn lemma_attribute_takes_declared_length(d: Seq<u8>, e: int, p: int, pool: Map<u16, ConstantModel>)
    requires
        parse_attribute(d, e, p, pool) is Ok,
    ensures
        p + 6 <= e,
        parse_attribute(d, e, p, pool)->Ok_0.1 == p + 6 + u32_at(d, p + 2),
        attribute_name(pool, u16_at(d, p)) is Some,
{
}

/// An attribute that declares length zero decodes, taking its six header
/// bytes, when its type has an empty payload (Synthetic, Deprecated); when its
/// type reads at least one byte, it fails with `LengthMismatch` at the start of
/// its payload, also where the header ends the input.
pub proof fn lemma_zero_length_attribute(d: Seq<u8>, e: int, p: int, pool: Map<u16, ConstantModel>)
    requires
        0 <= p,
        p + 6 <= e,
        u32_at(d, p + 2) == 0,
        attribute_name(pool, u16_at(d, p)) is Some,
        attribute_type_named(attribute_name(pool, u16_at(d, p))->Some_0) is Some,
    ensures
        ({
            let t = attribute_type_named(attribute_name(pool, u16_at(d, p))->Some_0)->Some_0;
            &&& (t == AttributeType::Synthetic || t == AttributeType::Deprecated) ==> parse_attribute(d, e, p, pool) is Ok
                && parse_attribute(d, e, p, pool)->Ok_0.1 == p + 6
            &&& (t != AttributeType::Synthetic && t != AttributeType::Deprecated && t
                != AttributeType::SourceDebugExtension) ==> parse_attribute(d, e, p, pool) == Err::<
                (AttributeModel, int),
                DecodeError,
            >(error_at(ErrorKind::LengthMismatch, p + 6))
        }),
{
    reveal(parse_constant_value);
    reveal(parse_stack_map_table);
    reveal(parse_exceptions);
    reveal(parse_inner_classes);
    reveal(parse_enclosing_method);
    reveal(parse_synthetic);
    reveal(parse_signature);
    reveal(parse_source_file);
    reveal(parse_source_debug_extension);
    reveal(parse_line_number_table);
    reveal(parse_local_variable_table);
    reveal(parse_local_variable_type_table);
    reveal(parse_deprecated);
    reveal(parse_runtime_visible_annotations);
    reveal(parse_runtime_invisible_annotations);
    reveal(parse_runtime_visible_parameter_annotations);
    reveal(parse_runtime_invisible_parameter_annotations);
    reveal(parse_runtime_visible_type_annotations);
    reveal(parse_runtime_invisible_type_annotations);
    reveal(parse_annotation_default);
    reveal(parse_bootstrap_methods);
    reveal(parse_method_parameters);
    reveal(parse_module);
    reveal(parse_module_packages);
    reveal(parse_module_main_class);
    reveal(parse_nest_host);
    reveal(parse_nest_members);
    reveal(parse_permitted_subclasses);
}

impl AttributeDataModel {
    /// The name index that the payload records.
    pub open spec fn name_index(self) -> u16 {
        match self {
            AttributeDataModel::ConstantValue(m) => m.attribute_name_index,
            AttributeDataModel::Code(m) => m.attribute_name_index,
            AttributeDataModel::StackMapTable(m) => m.attribute_name_index,
            AttributeDataModel::Exceptions(m) => m.attribute_name_index,
            AttributeDataModel::InnerClasses(m) => m.attribute_name_index,
            AttributeDataModel::EnclosingMethod(m) => m.attribute_name_index,
            AttributeDataModel::Synthetic(m) => m.attribute_name_index,
            AttributeDataModel::Signature(m) => m.attribute_name_index,
            AttributeDataModel::SourceFile(m) => m.attribute_name_index,
            AttributeDataModel::SourceDebugExtension(m) => m.attribute_name_index,
            AttributeDataModel::LineNumberTable(m) => m.attribute_name_index,
            AttributeDataModel::LocalVariableTable(m) => m.attribute_name_index,
            AttributeDataModel::LocalVariableTypeTable(m) => m.attribute_name_index,
            AttributeDataModel::Deprecated(m) => m.attribute_name_index,
            AttributeDataModel::RuntimeVisibleAnnotations(m) => m.attribute_name_index,
            AttributeDataModel::RuntimeInvisibleAnnotations(m) => m.attribute_name_index,
            AttributeDataModel::RuntimeVisibleParameterAnnotations(m) => m.attribute_name_index,
            AttributeDataModel::RuntimeInvisibleParameterAnnotations(m) => m.attribute_name_index,
            AttributeDataModel::RuntimeVisibleTypeAnnotations(m) => m.attribute_name_index,
            AttributeDataModel::RuntimeInvisibleTypeAnnotations(m) => m.attribute_name_index,
            AttributeDataModel::AnnotationDefault(m) => m.attribute_name_index,
            AttributeDataModel::BootstrapMethods(m) => m.attribute_name_index,
            AttributeDataModel::MethodParameters(m) => m.attribute_name_index,
            AttributeDataModel::Module(m) => m.attribute_name_index,
            AttributeDataModel::ModulePackages(m) => m.attribute_name_index,
            AttributeDataModel::ModuleMainClass(m) => m.attribute_name_index,
            AttributeDataModel::NestHost(m) => m.attribute_name_index,
            AttributeDataModel::NestMembers(m) => m.attribute_name_index,
            AttributeDataModel::Record(m) => m.attribute_name_index,
            AttributeDataModel::PermittedSubclasses(m) => m.attribute_name_index,
        }
    }
}

/// A payload that decodes records the name index it was read under.
proof fn lemma_payload_name_index(
    d: Seq<u8>,
    e: int,
    p: int,
    t: AttributeType,
    ni: u16,
    len: u32,
    pool: Map<u16, ConstantModel>,
)
    requires
        parse_payload(d, e, p, t, ni, len, pool) is Ok,
    ensures
        parse_payload(d, e, p, t, ni, len, pool)->Ok_0.0.name_index() == ni,
{
    match t {
        AttributeType::ConstantValue => {
            reveal(parse_constant_value);
        },
        AttributeType::Code => {},
        AttributeType::StackMapTable => {
            reveal(parse_stack_map_table);
        },
        AttributeType::Exceptions => {
            reveal(parse_exceptions);
        },
        AttributeType::InnerClasses => {
            reveal(parse_inner_classes);
        },
        AttributeType::EnclosingMethod => {
            reveal(parse_enclosing_method);
        },
        AttributeType::Synthetic => {
            reveal(parse_synthetic);
        },
        AttributeType::Signature => {
            reveal(parse_signature);
        },
        AttributeType::SourceFile => {
            reveal(parse_source_file);
        },
        AttributeType::SourceDebugExtension => {
            reveal(parse_source_debug_extension);
        },
        AttributeType::LineNumberTable => {
            reveal(parse_line_number_table);
        },
        AttributeType::LocalVariableTable => {
            reveal(parse_local_variable_table);
        },
        AttributeType::LocalVariableTypeTable => {
            reveal(parse_local_variable_type_table);
        },
        AttributeType::Deprecated => {
            reveal(parse_deprecated);
        },
        AttributeType::RuntimeVisibleAnnotations => {
            reveal(parse_runtime_visible_annotations);
        },
        AttributeType::RuntimeInvisibleAnnotations => {
            reveal(parse_runtime_invisible_annotations);
        },
        AttributeType::RuntimeVisibleParameterAnnotations => {
            reveal(parse_runtime_visible_parameter_annotations);
        },
        AttributeType::RuntimeInvisibleParameterAnnotations => {
            reveal(parse_runtime_invisible_parameter_annotations);
        },
        AttributeType::RuntimeVisibleTypeAnnotations => {
            reveal(parse_runtime_visible_type_annotations);
        },
        AttributeType::RuntimeInvisibleTypeAnnotations => {
            reveal(parse_runtime_invisible_type_annotations);
        },
        AttributeType::AnnotationDefault => {
            reveal(parse_annotation_default);
        },
        AttributeType::BootstrapMethods => {
            reveal(parse_bootstrap_methods);
        },
        AttributeType::MethodParameters => {
            reveal(parse_method_parameters);
        },
        AttributeType::Module => {
            reveal(parse_module);
        },
        AttributeType::ModulePackages => {
            reveal(parse_module_packages);
        },
        AttributeType::ModuleMainClass => {
            reveal(parse_module_main_class);
        },
        AttributeType::NestHost => {
            reveal(parse_nest_host);
        },
        AttributeType::NestMembers => {
            reveal(parse_nest_members);
        },
        AttributeType::Record => {},
        AttributeType::PermittedSubclasses => {
            reveal(parse_permitted_subclasses);
        },
    }
}

/// The attribute's name index, and those of every attribute nested in it
/// (inside Code, and inside the components of Record), resolve to UTF-8
/// constants.
pub open spec fn attribute_tree_named(a: AttributeModel, pool: Map<u16, ConstantModel>) -> bool
    decreases a,
{
    &&& attribute_name(pool, a.data.name_index()) is Some
    &&& match a.data {
        AttributeDataModel::Code(c) => forall|i: int|
            0 <= i < c.attributes.len() ==> attribute_tree_named(#[trigger] c.attributes[i], pool),
        AttributeDataModel::Record(r) => forall|i: int, j: int|
            0 <= i < r.components.len() && 0 <= j < r.components[i].attributes.len() ==> attribute_tree_named(
                #[trigger] r.components[i].attributes[j],
                pool,
            ),
        _ => true,
    }
}

/// A decoded attribute resolves its own name and the names of all the
/// attributes nested in it.
pub proof fn lemma_attribute_tree_named(d: Seq<u8>, e: int, p: int, pool: Map<u16, ConstantModel>)
    requires
        parse_attribute(d, e, p, pool) is Ok,
    ensures
        attribute_tree_named(parse_attribute(d, e, p, pool)->Ok_0.0, pool),
    decreases e - p,
{
    let ni = u16_at(d, p);
    let len = u32_at(d, p + 2);
    let t = attribute_type_named(attribute_name(pool, ni)->Some_0)->Some_0;
    lemma_payload_name_index(d, p + 6 + len, p + 6, t, ni, len, pool);
    lemma_payload_tree_named(d, p + 6 + len, p + 6, t, ni, len, pool);
}

proof fn lemma_payload_tree_named(
    d: Seq<u8>,
    e: int,
    p: int,
    t: AttributeType,
    ni: u16,
    len: u32,
    pool: Map<u16, ConstantModel>,
)
    requires
        p <= e,
        parse_payload(d, e, p, t, ni, len, pool) is Ok,
    ensures
        match parse_payload(d, e, p, t, ni, len, pool)->Ok_0.0 {
            AttributeDataModel::Code(c) => forall|i: int|
                0 <= i < c.attributes.len() ==> attribute_tree_named(#[trigger] c.attributes[i], pool),
            AttributeDataModel::Record(r) => forall|i: int, j: int|
                0 <= i < r.components.len() && 0 <= j < r.components[i].attributes.len() ==> attribute_tree_named(
                    #[trigger] r.components[i].attributes[j],
                    pool,
                ),
            _ => true,
        },
    decreases e - p + 3,
{
    if t == AttributeType::Code {
        let code_length = u32_at(d, p + 4);
        let q = p + 8 + code_length;
        let q2 = q + 2 + 8 * u16_at(d, q);
        lemma_attributes_named(d, e, q2 + 2, u16_at(d, q2) as int, pool);
    } else if t == AttributeType::Record {
        lemma_components_named(d, e, p + 2, u16_at(d, p) as int, pool);
    }
}

proof fn lemma_components_named(d: Seq<u8>, e: int, p: int, n: int, pool: Map<u16, ConstantModel>)
    requires
        parse_record_components(d, e, p, n, pool) is Ok,
    ensures
        forall|i: int, j: int|
            0 <= i < parse_record_components(d, e, p, n, pool)->Ok_0.0.len() && 0 <= j
                < parse_record_components(d, e, p, n, pool)->Ok_0.0[i].attributes.len() ==> attribute_tree_named(
                #[trigger] parse_record_components(d, e, p, n, pool)->Ok_0.0[i].attributes[j],
                pool,
            ),
    decreases e - p + 1,
{
    if n > 0 {
        lemma_attributes_named(d, e, p + 6, u16_at(d, p + 4) as int, pool);
        let q = parse_attributes(d, e, p + 6, u16_at(d, p + 4) as int, pool)->Ok_0.1;
        lemma_components_named(d, e, q, n - 1, pool);
        let all = parse_record_components(d, e, p, n, pool)->Ok_0.0;
        let rest = parse_record_components(d, e, q, n - 1, pool)->Ok_0.0;
        assert forall|i: int, j: int| 0 <= i < all.len() && 0 <= j < all[i].attributes.len() implies attribute_tree_named(
            #[trigger] all[i].attributes[j],
            pool,
        ) by {
            if i > 0 {
                assert(all[i] == rest[i - 1]);
            }
        }
    }
}

/// Every attribute of a decoded attribute list resolves its name and the
/// names of all the attributes nested in it.
pub proof fn lemma_attributes_named(d: Seq<u8>, e: int, p: int, n: int, pool: Map<u16, ConstantModel>)
    requires
        parse_attributes(d, e, p, n, pool) is Ok,
    ensures
        forall|i: int|
            0 <= i < parse_attributes(d, e, p, n, pool)->Ok_0.0.len() ==> attribute_tree_named(
                #[trigger] parse_attributes(d, e, p, n, pool)->Ok_0.0[i],
                pool,
            ),
    decreases e - p + 1,
{
    if n > 0 {
        let (a, q) = parse_attribute(d, e, p, pool)->Ok_0;
        lemma_attribute_tree_named(d, e, p, pool);
        lemma_attributes_named(d, e, q, n - 1, pool);
        let all = parse_attributes(d, e, p, n, pool)->Ok_0.0;
        let rest = parse_attributes(d, e, q, n - 1, pool)->Ok_0.0;
        assert(all == seq![a] + rest);
        assert forall|i: int| 0 <= i < all.len() implies attribute_tree_named(#[trigger] all[i], pool) by {
            if i > 0 {
                assert(all[i] == rest[i - 1]);
            }
        }
    }
}

} // verus!
