//! Fields: an access mask, a name and a descriptor, then attributes.

use vstd::prelude::*;
use crate::access_flags::{field_flags_of, Flags, FieldAccessFlags};
use crate::attribute::{
    agrees_views, attribute_tree_named, cons, lemma_attributes_named, lemma_prepend_cons, lemma_prepend_empty,
    parse_attributes, prepend, read_attributes, views, AttributeInfo, AttributeModel,
};
use crate::byte_reader::{agrees_view, take_u16, u16_at, ByteReader, Parsed};
use crate::constant_pool::{ConstantModel, ConstantPool};
use crate::error::DecodeError;

verus! {

/// Represents a field on a class or interface
#[derive(Debug)]
pub struct FieldInfo {
    pub access_flags: Vec<FieldAccessFlags>,
    pub name_index: u16,
    pub descriptor_index: u16,
    pub attributes: Vec<AttributeInfo>,
}

/// A `FieldInfo` with its lists as sequences.
pub ghost struct FieldModel {
    pub access_flags: Seq<FieldAccessFlags>,
    pub name_index: u16,
    pub descriptor_index: u16,
    pub attributes: Seq<AttributeModel>,
}

impl View for FieldInfo {
    type V = FieldModel;

    open spec fn view(&self) -> FieldModel {
        FieldModel {
            access_flags: self.access_flags@,
            name_index: self.name_index,
            descriptor_index: self.descriptor_index,
            attributes: views(self.attributes@),
        }
    }
}

/// The field at `p`.
pub open spec fn parse_field(d: Seq<u8>, e: int, p: int, pool: Map<u16, ConstantModel>) -> Parsed<FieldModel> {
    match take_u16(d, e, p) {
        Err(err) => Err(err),
        Ok((mask, p1)) => match take_u16(d, e, p1) {
            Err(err) => Err(err),
            Ok((name_index, p2)) => match take_u16(d, e, p2) {
                Err(err) => Err(err),
                Ok((descriptor_index, p3)) => match take_u16(d, e, p3) {
                    Err(err) => Err(err),
                    Ok((count, p4)) => match parse_attributes(d, e, p4, count as int, pool) {
                        Err(err) => Err(err),
                        Ok((attributes, q)) => Ok((
                            FieldModel { access_flags: field_flags_of(mask), name_index, descriptor_index, attributes },
                            q,
                        )),
                    },
                },
            },
        },
    }
}

/// `n` consecutive fields at `p`.
pub open spec fn parse_fields(d: Seq<u8>, e: int, p: int, n: int, pool: Map<u16, ConstantModel>) -> Parsed<
    Seq<FieldModel>,
>
    decreases n,
{
    if n <= 0 {
        Ok((Seq::empty(), p))
    } else {
        match parse_field(d, e, p, pool) {
            Err(err) => Err(err),
            Ok((x, q)) => cons(x, parse_fields(d, e, q, n - 1, pool)),
        }
    }
}

impl FieldInfo {
    /// Create a new field from a class file binary blob
    pub fn new(reader: &mut ByteReader, constant_pool: &ConstantPool) -> (r: Result<FieldInfo, DecodeError>)
        requires
            old(reader).wf(),
        ensures
            final(reader).wf(),
            final(reader).same_source(old(reader)),
            agrees_view(r, final(reader).spec_pos(), parse_field(old(reader).spec_data(), old(reader).spec_limit(), old(reader).spec_pos(), constant_pool@)),
    {
        let mask = reader.read_u16()?;
        let access_flags = FieldAccessFlags::from_u16(mask);
        let name_index = reader.read_u16()?;
        let descriptor_index = reader.read_u16()?;
        let count = reader.read_u16()?;
        let attributes = read_attributes(reader, constant_pool, count)?;
        Ok(FieldInfo { access_flags, name_index, descriptor_index, attributes })
    }
}

/// Reads `n` consecutive fields
pub fn read_fields(reader: &mut ByteReader, constant_pool: &ConstantPool, n: u16) -> (r: Result<
    Vec<FieldInfo>,
    DecodeError,
>)
    requires
        old(reader).wf(),
    ensures
        final(reader).wf(),
        final(reader).same_source(old(reader)),
        agrees_views(r, final(reader).spec_pos(), parse_fields(old(reader).spec_data(), old(reader).spec_limit(), old(reader).spec_pos(), n as int, constant_pool@)),
{
    let mut out: Vec<FieldInfo> = Vec::new();
    let mut i: u16 = 0;
    proof {
        lemma_prepend_empty(parse_fields(old(reader).spec_data(), old(reader).spec_limit(), old(reader).spec_pos(), n as int, constant_pool@));
    }
    while i < n
        invariant
            reader.wf(),
            reader.same_source(old(reader)),
            i <= n,
            parse_fields(old(reader).spec_data(), old(reader).spec_limit(), old(reader).spec_pos(), n as int, constant_pool@) == prepend(
                views(out@),
                parse_fields(reader.spec_data(), reader.spec_limit(), reader.spec_pos(), n - i, constant_pool@),
            ),
        decreases n - i,
    {
        let ghost before = views(out@);
        let x = FieldInfo::new(reader, constant_pool)?;
        proof {
            lemma_prepend_cons(
                before,
                x@,
                parse_fields(reader.spec_data(), reader.spec_limit(), reader.spec_pos(), n - i - 1, constant_pool@),
            );
        }
        out.push(x);
        proof {
            assert(views(out@) =~= before.push(x@));
        }
        i += 1;
    }
    proof {
        assert(views(out@) + Seq::empty() =~= views(out@));
    }
    Ok(out)
}

/// Every attribute of every decoded field, and every attribute nested in one,
/// has a name index that resolves to a UTF-8 constant.
pub proof fn lemma_fields_attributes_named(d: Seq<u8>, e: int, p: int, n: int, pool: Map<u16, ConstantModel>)
    requires
        parse_fields(d, e, p, n, pool) is Ok,
    ensures
        forall|i: int, j: int|
            0 <= i < parse_fields(d, e, p, n, pool)->Ok_0.0.len() && 0 <= j < parse_fields(d, e, p, n, pool)->Ok_0.0[i].attributes.len()
                ==> attribute_tree_named(#[trigger] parse_fields(d, e, p, n, pool)->Ok_0.0[i].attributes[j], pool),
    decreases n,
{
    if n > 0 {
        let (x, q) = parse_field(d, e, p, pool)->Ok_0;
        lemma_attributes_named(d, e, p + 8, u16_at(d, p + 6) as int, pool);
        lemma_fields_attributes_named(d, e, q, n - 1, pool);
        let all = parse_fields(d, e, p, n, pool)->Ok_0.0;
        let rest = parse_fields(d, e, q, n - 1, pool)->Ok_0.0;
        assert(all == seq![x] + rest);
        assert forall|i: int, j: int| 0 <= i < all.len() && 0 <= j < all[i].attributes.len() implies attribute_tree_named(#[trigger] all[i].attributes[j], pool) by {
            if i > 0 {
                assert(all[i] == rest[i - 1]);
            }
        }
    }
}

} // verus!
