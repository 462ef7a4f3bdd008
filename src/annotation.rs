//! Annotations, their element values, and type annotations.

use vstd::prelude::*;
use crate::attribute::{
    agrees_views, cons, lemma_prepend_cons, lemma_prepend_empty, parse_annotations, prepend,
    read_annotations, read_localvar_target_table, take_localvar_target_table, views, LocalVarTargetEntry,
};
use crate::byte_reader::{agrees_view, overrun, take_u16, take_u8, ByteReader, Parsed};
use crate::error::{error_at, DecodeError, ErrorKind};

verus! {

broadcast use {vstd::std_specs::vec::group_vec_axioms, vstd::seq::group_seq_axioms};

/// The value of an element-value pair, by its tag
#[derive(Debug)]
pub enum ElementValue {
    /// A constant of a primitive type or a string (tags B, C, D, F, I, J, S, Z, s)
    Const { tag: u8, const_value_index: u16 },
    /// An enum constant (tag e)
    EnumConst { type_name_index: u16, const_name_index: u16 },
    /// A class literal (tag c)
    Class { class_info_index: u16 },
    /// A nested annotation (tag @)
    Annotation(Annotation),
    /// An array of values (tag [)
    Array(Vec<ElementValue>),
}

/// An element value with its nested values as sequences.
pub ghost enum ElementValueModel {
    Const { tag: u8, const_value_index: u16 },
    EnumConst { type_name_index: u16, const_name_index: u16 },
    Class { class_info_index: u16 },
    Annotation(AnnotationModel),
    Array(Seq<ElementValueModel>),
}

/// A named element of an annotation and its value
#[derive(Debug)]
pub struct ElementValuePair {
    pub element_name_index: u16,
    pub value: ElementValue,
}

/// An element-value pair as a ghost value.
pub ghost struct ElementValuePairModel {
    pub element_name_index: u16,
    pub value: ElementValueModel,
}

/// An annotation: its type, and the values of its elements
#[derive(Debug)]
pub struct Annotation {
    pub type_index: u16,
    pub element_value_pairs: Vec<ElementValuePair>,
}

/// An annotation as a ghost value.
pub ghost struct AnnotationModel {
    pub type_index: u16,
    pub element_value_pairs: Seq<ElementValuePairModel>,
}

impl View for ElementValue {
    type V = ElementValueModel;

    open spec fn view(&self) -> ElementValueModel
        decreases self,
    {
        match self {
            ElementValue::Const { tag, const_value_index } => ElementValueModel::Const {
                tag: *tag,
                const_value_index: *const_value_index,
            },
            ElementValue::EnumConst { type_name_index, const_name_index } => ElementValueModel::EnumConst {
                type_name_index: *type_name_index,
                const_name_index: *const_name_index,
            },
            ElementValue::Class { class_info_index } => ElementValueModel::Class {
                class_info_index: *class_info_index,
            },
            ElementValue::Annotation(a) => ElementValueModel::Annotation(a@),
            ElementValue::Array(vs) => ElementValueModel::Array(
                Seq::new(
                    vs@.len(),
                    |i: int|
                        if 0 <= i < vs@.len() {
                            vs@[i]@
                        } else {
                            arbitrary()
                        },
                ),
            ),
        }
    }
}

impl View for ElementValuePair {
    type V = ElementValuePairModel;

    open spec fn view(&self) -> ElementValuePairModel
        decreases self,
    {
        ElementValuePairModel { element_name_index: self.element_name_index, value: self.value@ }
    }
}

impl View for Annotation {
    type V = AnnotationModel;

    open spec fn view(&self) -> AnnotationModel
        decreases self,
    {
        AnnotationModel {
            type_index: self.type_index,
            element_value_pairs: Seq::new(
                self.element_value_pairs@.len(),
                |i: int|
                    if 0 <= i < self.element_value_pairs@.len() {
                        self.element_value_pairs@[i]@
                    } else {
                        arbitrary()
                    },
            ),
        }
    }
}

proof fn lemma_array_view(v: &ElementValue)
    requires
        v is Array,
    ensures
        v@ == ElementValueModel::Array(views(v->Array_0@)),
{
    reveal_with_fuel(<ElementValue as View>::view, 3);
    match v {
        ElementValue::Array(vs) => {
            assert(v@->Array_0.len() == vs@.len());
            assert forall|i: int| 0 <= i < vs@.len() implies v@->Array_0[i] == vs@[i]@ by {}
            assert(v@->Array_0 =~= views(vs@));
        },
        _ => {},
    }
}

proof fn lemma_annotation_view(a: &Annotation)
    ensures
        a@.element_value_pairs == views(a.element_value_pairs@),
{
    reveal_with_fuel(<Annotation as View>::view, 2);
    assert(a@.element_value_pairs =~= views(a.element_value_pairs@));
}

/// The tags of constant element values: B, C, D, F, I, J, S, Z and s.
pub open spec fn is_const_tag(t: u8) -> bool {
    t == 66 || t == 67 || t == 68 || t == 70 || t == 73 || t == 74 || t == 83 || t == 90 || t == 115
}

/// The element value at `p`: a tag byte, then what the tag calls for.
pub open spec fn parse_element_value(d: Seq<u8>, e: int, p: int) -> Parsed<ElementValueModel>
    decreases e - p,
{
    match take_u8(d, e, p) {
        Err(err) => Err(err),
        Ok((tag, p1)) => if is_const_tag(tag) {
            match take_u16(d, e, p1) {
                Err(err) => Err(err),
                Ok((index, p2)) => Ok((ElementValueModel::Const { tag, const_value_index: index }, p2)),
            }
        } else if tag == 101 {
            match take_u16(d, e, p1) {
                Err(err) => Err(err),
                Ok((type_name_index, p2)) => match take_u16(d, e, p2) {
                    Err(err) => Err(err),
                    Ok((const_name_index, p3)) => Ok((
                        ElementValueModel::EnumConst { type_name_index, const_name_index },
                        p3,
                    )),
                },
            }
        } else if tag == 99 {
            match take_u16(d, e, p1) {
                Err(err) => Err(err),
                Ok((index, p2)) => Ok((ElementValueModel::Class { class_info_index: index }, p2)),
            }
        } else if tag == 64 {
            match parse_annotation(d, e, p1) {
                Err(err) => Err(err),
                Ok((a, q)) => Ok((ElementValueModel::Annotation(a), q)),
            }
        } else if tag == 91 {
            match take_u16(d, e, p1) {
                Err(err) => Err(err),
                Ok((n, p2)) => match parse_element_values(d, e, p2, n as int) {
                    Err(err) => Err(err),
                    Ok((vs, q)) => Ok((ElementValueModel::Array(vs), q)),
                },
            }
        } else {
            Err(error_at(ErrorKind::MalformedTag, p))
        },
    }
}

/// `n` element values at `p`.
pub open spec fn parse_element_values(d: Seq<u8>, e: int, p: int, n: int) -> Parsed<Seq<ElementValueModel>>
    decreases e - p + 1,
{
    if n <= 0 {
        Ok((Seq::empty(), p))
    } else if p > e {
        Err(overrun(d, p, 1))
    } else {
        match parse_element_value(d, e, p) {
            Err(err) => Err(err),
            Ok((v, q)) => if q <= p || q > e {
                Err(error_at(ErrorKind::LengthMismatch, p))
            } else {
                cons(v, parse_element_values(d, e, q, n - 1))
            },
        }
    }
}

/// The annotation at `p`: its type index, then its element-value pairs.
pub open spec fn parse_annotation(d: Seq<u8>, e: int, p: int) -> Parsed<AnnotationModel>
    decreases e - p,
{
    match take_u16(d, e, p) {
        Err(err) => Err(err),
        Ok((type_index, p1)) => match take_u16(d, e, p1) {
            Err(err) => Err(err),
            Ok((n, p2)) => match parse_element_value_pairs(d, e, p2, n as int) {
                Err(err) => Err(err),
                Ok((pairs, q)) => Ok((AnnotationModel { type_index, element_value_pairs: pairs }, q)),
            },
        },
    }
}

/// `n` element-value pairs at `p`.
pub open spec fn parse_element_value_pairs(d: Seq<u8>, e: int, p: int, n: int) -> Parsed<Seq<ElementValuePairModel>>
    decreases e - p + 1,
{
    if n <= 0 {
        Ok((Seq::empty(), p))
    } else if p > e {
        Err(overrun(d, p, 2))
    } else {
        match take_u16(d, e, p) {
            Err(err) => Err(err),
            Ok((name, p1)) => match parse_element_value(d, e, p1) {
                Err(err) => Err(err),
                Ok((v, q)) => if q <= p || q > e {
                    Err(error_at(ErrorKind::LengthMismatch, p))
                } else {
                    cons(
                        ElementValuePairModel { element_name_index: name, value: v },
                        parse_element_value_pairs(d, e, q, n - 1),
                    )
                },
            },
        }
    }
}

/// Reads one element value
pub fn read_element_value(reader: &mut ByteReader) -> (r: Result<ElementValue, DecodeError>)
    requires
        old(reader).wf(),
    ensures
        final(reader).wf(),
        final(reader).same_source(old(reader)),
        agrees_view(
            r,
            final(reader).spec_pos(),
            parse_element_value(old(reader).spec_data(), old(reader).spec_limit(), old(reader).spec_pos()),
        ),
        r is Ok ==> final(reader).spec_pos() > old(reader).spec_pos(),
    decreases old(reader).spec_limit() - old(reader).spec_pos(),
{
    let start = reader.position();
    let tag = reader.read_u8()?;
    if tag == 66 || tag == 67 || tag == 68 || tag == 70 || tag == 73 || tag == 74 || tag == 83 || tag == 90
        || tag == 115 {
        let const_value_index = reader.read_u16()?;
        Ok(ElementValue::Const { tag, const_value_index })
    } else if tag == 101 {
        let type_name_index = reader.read_u16()?;
        let const_name_index = reader.read_u16()?;
        Ok(ElementValue::EnumConst { type_name_index, const_name_index })
    } else if tag == 99 {
        let class_info_index = reader.read_u16()?;
        Ok(ElementValue::Class { class_info_index })
    } else if tag == 64 {
        let a = read_annotation(reader)?;
        Ok(ElementValue::Annotation(a))
    } else if tag == 91 {
        let n = reader.read_u16()?;
        let values = read_element_values(reader, n)?;
        let v = ElementValue::Array(values);
        proof {
            lemma_array_view(&v);
        }
        Ok(v)
    } else {
        Err(DecodeError { kind: ErrorKind::MalformedTag, offset: start })
    }
}

/// Reads `n` element values
fn read_element_values(reader: &mut ByteReader, n: u16) -> (r: Result<Vec<ElementValue>, DecodeError>)
    requires
        old(reader).wf(),
    ensures
        final(reader).wf(),
        final(reader).same_source(old(reader)),
        agrees_views(
            r,
            final(reader).spec_pos(),
            parse_element_values(old(reader).spec_data(), old(reader).spec_limit(), old(reader).spec_pos(), n as int),
        ),
        r is Ok ==> final(reader).spec_pos() >= old(reader).spec_pos(),
    decreases old(reader).spec_limit() - old(reader).spec_pos() + 1,
{
    let mut out: Vec<ElementValue> = Vec::new();
    let mut i: u16 = 0;
    proof {
        lemma_prepend_empty(
            parse_element_values(old(reader).spec_data(), old(reader).spec_limit(), old(reader).spec_pos(), n as int),
        );
    }
    while i < n
        invariant
            reader.wf(),
            reader.same_source(old(reader)),
            reader.spec_pos() >= old(reader).spec_pos(),
            i <= n,
            parse_element_values(old(reader).spec_data(), old(reader).spec_limit(), old(reader).spec_pos(), n as int)
                == prepend(
                views(out@),
                parse_element_values(reader.spec_data(), reader.spec_limit(), reader.spec_pos(), n - i),
            ),
        decreases n - i,
    {
        let ghost before = views(out@);
        let v = read_element_value(reader)?;
        proof {
            lemma_prepend_cons(
                before,
                v@,
                parse_element_values(reader.spec_data(), reader.spec_limit(), reader.spec_pos(), n - i - 1),
            );
        }
        out.push(v);
        proof {
            assert(views(out@) =~= before.push(v@));
        }
        i += 1;
    }
    proof {
        assert(views(out@) + Seq::empty() =~= views(out@));
    }
    Ok(out)
}

/// Reads one annotation
pub fn read_annotation(reader: &mut ByteReader) -> (r: Result<Annotation, DecodeError>)
    requires
        old(reader).wf(),
    ensures
        final(reader).wf(),
        final(reader).same_source(old(reader)),
        agrees_view(
            r,
            final(reader).spec_pos(),
            parse_annotation(old(reader).spec_data(), old(reader).spec_limit(), old(reader).spec_pos()),
        ),
        r is Ok ==> final(reader).spec_pos() > old(reader).spec_pos(),
    decreases old(reader).spec_limit() - old(reader).spec_pos(),
{
    let type_index = reader.read_u16()?;
    let n = reader.read_u16()?;
    let element_value_pairs = read_element_value_pairs(reader, n)?;
    let a = Annotation { type_index, element_value_pairs };
    proof {
        lemma_annotation_view(&a);
    }
    Ok(a)
}

/// Reads `n` element-value pairs
fn read_element_value_pairs(reader: &mut ByteReader, n: u16) -> (r: Result<Vec<ElementValuePair>, DecodeError>)
    requires
        old(reader).wf(),
    ensures
        final(reader).wf(),
        final(reader).same_source(old(reader)),
        agrees_views(
            r,
            final(reader).spec_pos(),
            parse_element_value_pairs(old(reader).spec_data(), old(reader).spec_limit(), old(reader).spec_pos(), n as int),
        ),
        r is Ok ==> final(reader).spec_pos() >= old(reader).spec_pos(),
    decreases old(reader).spec_limit() - old(reader).spec_pos() + 1,
{
    let mut out: Vec<ElementValuePair> = Vec::new();
    let mut i: u16 = 0;
    proof {
        lemma_prepend_empty(
            parse_element_value_pairs(old(reader).spec_data(), old(reader).spec_limit(), old(reader).spec_pos(), n as int),
        );
    }
    while i < n
        invariant
            reader.wf(),
            reader.same_source(old(reader)),
            reader.spec_pos() >= old(reader).spec_pos(),
            i <= n,
            parse_element_value_pairs(old(reader).spec_data(), old(reader).spec_limit(), old(reader).spec_pos(), n as int)
                == prepend(
                views(out@),
                parse_element_value_pairs(reader.spec_data(), reader.spec_limit(), reader.spec_pos(), n - i),
            ),
        decreases n - i,
    {
        let ghost before = views(out@);
        let element_name_index = reader.read_u16()?;
        let value = read_element_value(reader)?;
        let pair = ElementValuePair { element_name_index, value };
        proof {
            lemma_prepend_cons(
                before,
                pair@,
                parse_element_value_pairs(reader.spec_data(), reader.spec_limit(), reader.spec_pos(), n - i - 1),
            );
        }
        out.push(pair);
        proof {
            assert(views(out@) =~= before.push(pair@));
        }
        i += 1;
    }
    proof {
        assert(views(out@) + Seq::empty() =~= views(out@));
    }
    Ok(out)
}

/// The annotations of one formal parameter
#[derive(Debug)]
pub struct ParameterAnnotations {
    pub annotations: Vec<Annotation>,
}

/// The annotations of one formal parameter, as a sequence.
pub ghost struct ParameterAnnotationsModel {
    pub annotations: Seq<AnnotationModel>,
}

impl View for ParameterAnnotations {
    type V = ParameterAnnotationsModel;

    open spec fn view(&self) -> ParameterAnnotationsModel {
        ParameterAnnotationsModel { annotations: views(self.annotations@) }
    }
}

/// The annotations of one parameter at `p`: a count, then the annotations.
pub open spec fn parse_parameter_annotation(d: Seq<u8>, e: int, p: int) -> Parsed<ParameterAnnotationsModel> {
    match take_u16(d, e, p) {
        Err(err) => Err(err),
        Ok((n, p1)) => match parse_annotations(d, e, p1, n as int) {
            Err(err) => Err(err),
            Ok((annotations, q)) => Ok((ParameterAnnotationsModel { annotations }, q)),
        },
    }
}

/// Reads the annotations of one parameter
pub fn read_parameter_annotation(reader: &mut ByteReader) -> (r: Result<ParameterAnnotations, DecodeError>)
    requires
        old(reader).wf(),
    ensures
        final(reader).wf(),
        final(reader).same_source(old(reader)),
        agrees_view(
            r,
            final(reader).spec_pos(),
            parse_parameter_annotation(old(reader).spec_data(), old(reader).spec_limit(), old(reader).spec_pos()),
        ),
{
    let n = reader.read_u16()?;
    let annotations = read_annotations(reader, n)?;
    Ok(ParameterAnnotations { annotations })
}

/// What a type annotation applies to, by its target type
#[derive(Debug)]
pub enum TargetInfo {
    /// A type parameter of a class or method (target types 0x00, 0x01)
    TypeParameter { type_parameter_index: u8 },
    /// A type in the extends or implements clause (0x10)
    Supertype { supertype_index: u16 },
    /// A bound of a type parameter (0x11, 0x12)
    TypeParameterBound { type_parameter_index: u8, bound_index: u8 },
    /// A field type, a return type or a receiver type (0x13 to 0x15)
    Empty,
    /// A formal parameter type (0x16)
    FormalParameter { formal_parameter_index: u8 },
    /// A type in a throws clause (0x17)
    Throws { throws_type_index: u16 },
    /// The type of a local variable or resource variable (0x40, 0x41)
    LocalVar(Vec<LocalVarTargetEntry>),
    /// The type in an exception parameter declaration (0x42)
    Catch { exception_table_index: u16 },
    /// The type in an instanceof, new or method reference expression (0x43 to 0x46)
    Offset { offset: u16 },
    /// A type argument of a cast or of a generic call (0x47 to 0x4B)
    TypeArgument { offset: u16, type_argument_index: u8 },
}

/// A target as a ghost value.
pub ghost enum TargetInfoModel {
    TypeParameter { type_parameter_index: u8 },
    Supertype { supertype_index: u16 },
    TypeParameterBound { type_parameter_index: u8, bound_index: u8 },
    Empty,
    FormalParameter { formal_parameter_index: u8 },
    Throws { throws_type_index: u16 },
    LocalVar(Seq<LocalVarTargetEntry>),
    Catch { exception_table_index: u16 },
    Offset { offset: u16 },
    TypeArgument { offset: u16, type_argument_index: u8 },
}

impl View for TargetInfo {
    type V = TargetInfoModel;

    open spec fn view(&self) -> TargetInfoModel {
        match self {
            TargetInfo::TypeParameter { type_parameter_index } => TargetInfoModel::TypeParameter {
                type_parameter_index: *type_parameter_index,
            },
            TargetInfo::Supertype { supertype_index } => TargetInfoModel::Supertype { supertype_index: *supertype_index },
            TargetInfo::TypeParameterBound { type_parameter_index, bound_index } => TargetInfoModel::TypeParameterBound {
                type_parameter_index: *type_parameter_index,
                bound_index: *bound_index,
            },
            TargetInfo::Empty => TargetInfoModel::Empty,
            TargetInfo::FormalParameter { formal_parameter_index } => TargetInfoModel::FormalParameter {
                formal_parameter_index: *formal_parameter_index,
            },
            TargetInfo::Throws { throws_type_index } => TargetInfoModel::Throws { throws_type_index: *throws_type_index },
            TargetInfo::LocalVar(table) => TargetInfoModel::LocalVar(table@),
            TargetInfo::Catch { exception_table_index } => TargetInfoModel::Catch {
                exception_table_index: *exception_table_index,
            },
            TargetInfo::Offset { offset } => TargetInfoModel::Offset { offset: *offset },
            TargetInfo::TypeArgument { offset, type_argument_index } => TargetInfoModel::TypeArgument {
                offset: *offset,
                type_argument_index: *type_argument_index,
            },
        }
    }
}

/// The target of target type `tt` at `p`; an unknown target type is a
/// `MalformedTag` at `at`, where the type annotation starts.
pub open spec fn parse_target_info(d: Seq<u8>, e: int, p: int, tt: u8, at: int) -> Parsed<TargetInfoModel> {
    if tt == 0x00 || tt == 0x01 {
        match take_u8(d, e, p) {
            Err(err) => Err(err),
            Ok((i, q)) => Ok((TargetInfoModel::TypeParameter { type_parameter_index: i }, q)),
        }
    } else if tt == 0x10 {
        match take_u16(d, e, p) {
            Err(err) => Err(err),
            Ok((i, q)) => Ok((TargetInfoModel::Supertype { supertype_index: i }, q)),
        }
    } else if tt == 0x11 || tt == 0x12 {
        match take_u8(d, e, p) {
            Err(err) => Err(err),
            Ok((i, p1)) => match take_u8(d, e, p1) {
                Err(err) => Err(err),
                Ok((b, q)) => Ok((TargetInfoModel::TypeParameterBound { type_parameter_index: i, bound_index: b }, q)),
            },
        }
    } else if 0x13 <= tt <= 0x15 {
        Ok((TargetInfoModel::Empty, p))
    } else if tt == 0x16 {
        match take_u8(d, e, p) {
            Err(err) => Err(err),
            Ok((i, q)) => Ok((TargetInfoModel::FormalParameter { formal_parameter_index: i }, q)),
        }
    } else if tt == 0x17 {
        match take_u16(d, e, p) {
            Err(err) => Err(err),
            Ok((i, q)) => Ok((TargetInfoModel::Throws { throws_type_index: i }, q)),
        }
    } else if tt == 0x40 || tt == 0x41 {
        match take_u16(d, e, p) {
            Err(err) => Err(err),
            Ok((n, p1)) => match take_localvar_target_table(d, e, p1, n as int) {
                Err(err) => Err(err),
                Ok((table, q)) => Ok((TargetInfoModel::LocalVar(table), q)),
            },
        }
    } else if tt == 0x42 {
        match take_u16(d, e, p) {
            Err(err) => Err(err),
            Ok((i, q)) => Ok((TargetInfoModel::Catch { exception_table_index: i }, q)),
        }
    } else if 0x43 <= tt <= 0x46 {
        match take_u16(d, e, p) {
            Err(err) => Err(err),
            Ok((o, q)) => Ok((TargetInfoModel::Offset { offset: o }, q)),
        }
    } else if 0x47 <= tt <= 0x4B {
        match take_u16(d, e, p) {
            Err(err) => Err(err),
            Ok((o, p1)) => match take_u8(d, e, p1) {
                Err(err) => Err(err),
                Ok((i, q)) => Ok((TargetInfoModel::TypeArgument { offset: o, type_argument_index: i }, q)),
            },
        }
    } else {
        Err(error_at(ErrorKind::MalformedTag, at))
    }
}

/// Reads the target of target type `tt`
fn read_target_info(reader: &mut ByteReader, tt: u8, at: usize) -> (r: Result<TargetInfo, DecodeError>)
    requires
        old(reader).wf(),
    ensures
        final(reader).wf(),
        final(reader).same_source(old(reader)),
        agrees_view(
            r,
            final(reader).spec_pos(),
            parse_target_info(old(reader).spec_data(), old(reader).spec_limit(), old(reader).spec_pos(), tt, at as int),
        ),
{
    if tt == 0x00 || tt == 0x01 {
        Ok(TargetInfo::TypeParameter { type_parameter_index: reader.read_u8()? })
    } else if tt == 0x10 {
        Ok(TargetInfo::Supertype { supertype_index: reader.read_u16()? })
    } else if tt == 0x11 || tt == 0x12 {
        let type_parameter_index = reader.read_u8()?;
        let bound_index = reader.read_u8()?;
        Ok(TargetInfo::TypeParameterBound { type_parameter_index, bound_index })
    } else if 0x13 <= tt && tt <= 0x15 {
        Ok(TargetInfo::Empty)
    } else if tt == 0x16 {
        Ok(TargetInfo::FormalParameter { formal_parameter_index: reader.read_u8()? })
    } else if tt == 0x17 {
        Ok(TargetInfo::Throws { throws_type_index: reader.read_u16()? })
    } else if tt == 0x40 || tt == 0x41 {
        let n = reader.read_u16()?;
        let table = read_localvar_target_table(reader, n)?;
        Ok(TargetInfo::LocalVar(table))
    } else if tt == 0x42 {
        Ok(TargetInfo::Catch { exception_table_index: reader.read_u16()? })
    } else if 0x43 <= tt && tt <= 0x46 {
        Ok(TargetInfo::Offset { offset: reader.read_u16()? })
    } else if 0x47 <= tt && tt <= 0x4B {
        let offset = reader.read_u16()?;
        let type_argument_index = reader.read_u8()?;
        Ok(TargetInfo::TypeArgument { offset, type_argument_index })
    } else {
        Err(DecodeError { kind: ErrorKind::MalformedTag, offset: at })
    }
}

/// One step of the path to the annotated part of a type
#[derive(Clone, Copy, Debug, PartialEq, Eq, Structural)]
pub struct TypePathEntry {
    pub type_path_kind: u8,
    pub type_argument_index: u8,
}

/// A type path of `n` two-byte steps at `p`, checked against the window as a whole.
pub open spec fn take_type_path(d: Seq<u8>, e: int, p: int, n: int) -> Parsed<Seq<TypePathEntry>> {
    if p + 2 * n <= e {
        Ok((
            Seq::new(
                n as nat,
                |i: int| TypePathEntry { type_path_kind: d[p + 2 * i], type_argument_index: d[p + 2 * i + 1] },
            ),
            p + 2 * n,
        ))
    } else {
        Err(overrun(d, p, 2 * n))
    }
}

/// Reads a type path of `n` steps
fn read_type_path(reader: &mut ByteReader, n: u8) -> (r: Result<Vec<TypePathEntry>, DecodeError>)
    requires
        old(reader).wf(),
    ensures
        final(reader).wf(),
        final(reader).same_source(old(reader)),
        agrees_view(
            r,
            final(reader).spec_pos(),
            take_type_path(old(reader).spec_data(), old(reader).spec_limit(), old(reader).spec_pos(), n as int),
        ),
{
    let size: usize = 2 * n as usize;
    if reader.remaining() < size {
        return Err(reader.overrun_error(size));
    }
    let ghost start = reader.spec_pos();
    let mut out: Vec<TypePathEntry> = Vec::new();
    let mut i: u8 = 0;
    while i < n
        invariant
            reader.wf(),
            reader.same_source(old(reader)),
            reader.spec_data() == old(reader).spec_data(),
            start == old(reader).spec_pos(),
            start + 2 * n <= reader.spec_limit(),
            i <= n,
            reader.spec_pos() == start + 2 * i,
            out@ =~= Seq::new(
                i as nat,
                |k: int|
                    TypePathEntry {
                        type_path_kind: reader.spec_data()[start + 2 * k],
                        type_argument_index: reader.spec_data()[start + 2 * k + 1],
                    },
            ),
        decreases n - i,
    {
        let type_path_kind = reader.read_u8()?;
        let type_argument_index = reader.read_u8()?;
        out.push(TypePathEntry { type_path_kind, type_argument_index });
        i += 1;
    }
    Ok(out)
}

/// An annotation on a use of a type
#[derive(Debug)]
pub struct TypeAnnotation {
    pub target_type: u8,
    pub target_info: TargetInfo,
    pub target_path: Vec<TypePathEntry>,
    pub type_index: u16,
    pub element_value_pairs: Vec<ElementValuePair>,
}

/// A type annotation as a ghost value.
pub ghost struct TypeAnnotationModel {
    pub target_type: u8,
    pub target_info: TargetInfoModel,
    pub target_path: Seq<TypePathEntry>,
    pub type_index: u16,
    pub element_value_pairs: Seq<ElementValuePairModel>,
}

impl View for TypeAnnotation {
    type V = TypeAnnotationModel;

    open spec fn view(&self) -> TypeAnnotationModel {
        TypeAnnotationModel {
            target_type: self.target_type,
            target_info: self.target_info@,
            target_path: self.target_path@,
            type_index: self.type_index,
            element_value_pairs: views(self.element_value_pairs@),
        }
    }
}

/// The type annotation at `p`: target type, target, type path, type index,
/// then element-value pairs.
pub open spec fn parse_type_annotation(d: Seq<u8>, e: int, p: int) -> Parsed<TypeAnnotationModel> {
    match take_u8(d, e, p) {
        Err(err) => Err(err),
        Ok((tt, p1)) => match parse_target_info(d, e, p1, tt, p) {
            Err(err) => Err(err),
            Ok((target_info, p2)) => match take_u8(d, e, p2) {
                Err(err) => Err(err),
                Ok((path_length, p3)) => match take_type_path(d, e, p3, path_length as int) {
                    Err(err) => Err(err),
                    Ok((target_path, p4)) => match take_u16(d, e, p4) {
                        Err(err) => Err(err),
                        Ok((type_index, p5)) => match take_u16(d, e, p5) {
                            Err(err) => Err(err),
                            Ok((n, p6)) => match parse_element_value_pairs(d, e, p6, n as int) {
                                Err(err) => Err(err),
                                Ok((pairs, q)) => Ok((
                                    TypeAnnotationModel {
                                        target_type: tt,
                                        target_info,
                                        target_path,
                                        type_index,
                                        element_value_pairs: pairs,
                                    },
                                    q,
                                )),
                            },
                        },
                    },
                },
            },
        },
    }
}

/// Reads one type annotation
pub fn read_type_annotation(reader: &mut ByteReader) -> (r: Result<TypeAnnotation, DecodeError>)
    requires
        old(reader).wf(),
    ensures
        final(reader).wf(),
        final(reader).same_source(old(reader)),
        agrees_view(
            r,
            final(reader).spec_pos(),
            parse_type_annotation(old(reader).spec_data(), old(reader).spec_limit(), old(reader).spec_pos()),
        ),
{
    let start = reader.position();
    let target_type = reader.read_u8()?;
    let target_info = read_target_info(reader, target_type, start)?;
    let path_length = reader.read_u8()?;
    let target_path = read_type_path(reader, path_length)?;
    let type_index = reader.read_u16()?;
    let n = reader.read_u16()?;
    let element_value_pairs = read_element_value_pairs(reader, n)?;
    Ok(TypeAnnotation { target_type, target_info, target_path, type_index, element_value_pairs })
}

} // verus!
