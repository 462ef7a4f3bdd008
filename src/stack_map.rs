//! Stack map frames: the verification types of the locals and of the operand
//! stack at given offsets of a method's code.

use vstd::prelude::*;
use crate::attribute::{agrees_views, cons, lemma_prepend_cons, lemma_prepend_empty, prepend, views};
use crate::byte_reader::{agrees, agrees_view, take_u16, take_u8, ByteReader, Parsed};
use crate::error::{error_at, DecodeError, ErrorKind};

verus! {

/// The verification type of one local or one stack slot
#[derive(Clone, Copy, Debug, PartialEq, Eq, Structural)]
pub enum VerificationTypeInfo {
    Top,
    Integer,
    Float,
    Double,
    Long,
    Null,
    UninitializedThis,
    /// An object of the class at this pool index
    Object(u16),
    /// An object created by the `new` instruction at this code offset
    Uninitialized(u16),
}

/// The verification type at `p`: a tag byte, and an index for tags 7 and 8.
pub open spec fn parse_verification_type(d: Seq<u8>, e: int, p: int) -> Parsed<VerificationTypeInfo> {
    match take_u8(d, e, p) {
        Err(err) => Err(err),
        Ok((tag, p1)) => if tag == 0 {
            Ok((VerificationTypeInfo::Top, p1))
        } else if tag == 1 {
            Ok((VerificationTypeInfo::Integer, p1))
        } else if tag == 2 {
            Ok((VerificationTypeInfo::Float, p1))
        } else if tag == 3 {
            Ok((VerificationTypeInfo::Double, p1))
        } else if tag == 4 {
            Ok((VerificationTypeInfo::Long, p1))
        } else if tag == 5 {
            Ok((VerificationTypeInfo::Null, p1))
        } else if tag == 6 {
            Ok((VerificationTypeInfo::UninitializedThis, p1))
        } else if tag == 7 || tag == 8 {
            match take_u16(d, e, p1) {
                Err(err) => Err(err),
                Ok((index, p2)) => Ok((
                    if tag == 7 {
                        VerificationTypeInfo::Object(index)
                    } else {
                        VerificationTypeInfo::Uninitialized(index)
                    },
                    p2,
                )),
            }
        } else {
            Err(error_at(ErrorKind::MalformedTag, p))
        },
    }
}

/// `n` verification types at `p`.
pub open spec fn parse_verification_types(d: Seq<u8>, e: int, p: int, n: int) -> Parsed<Seq<VerificationTypeInfo>>
    decreases n,
{
    if n <= 0 {
        Ok((Seq::empty(), p))
    } else {
        match parse_verification_type(d, e, p) {
            Err(err) => Err(err),
            Ok((v, q)) => cons(v, parse_verification_types(d, e, q, n - 1)),
        }
    }
}

/// Reads one verification type
fn read_verification_type(reader: &mut ByteReader) -> (r: Result<VerificationTypeInfo, DecodeError>)
    requires
        old(reader).wf(),
    ensures
        final(reader).wf(),
        final(reader).same_source(old(reader)),
        agrees(
            r,
            final(reader).spec_pos(),
            parse_verification_type(old(reader).spec_data(), old(reader).spec_limit(), old(reader).spec_pos()),
        ),
{
    let start = reader.position();
    let tag = reader.read_u8()?;
    match tag {
        0 => Ok(VerificationTypeInfo::Top),
        1 => Ok(VerificationTypeInfo::Integer),
        2 => Ok(VerificationTypeInfo::Float),
        3 => Ok(VerificationTypeInfo::Double),
        4 => Ok(VerificationTypeInfo::Long),
        5 => Ok(VerificationTypeInfo::Null),
        6 => Ok(VerificationTypeInfo::UninitializedThis),
        7 => Ok(VerificationTypeInfo::Object(reader.read_u16()?)),
        8 => Ok(VerificationTypeInfo::Uninitialized(reader.read_u16()?)),
        _ => Err(DecodeError { kind: ErrorKind::MalformedTag, offset: start }),
    }
}

/// Reads `n` verification types
fn read_verification_types(reader: &mut ByteReader, n: u16) -> (r: Result<Vec<VerificationTypeInfo>, DecodeError>)
    requires
        old(reader).wf(),
    ensures
        final(reader).wf(),
        final(reader).same_source(old(reader)),
        agrees_view(
            r,
            final(reader).spec_pos(),
            parse_verification_types(old(reader).spec_data(), old(reader).spec_limit(), old(reader).spec_pos(), n as int),
        ),
{
    let mut out: Vec<VerificationTypeInfo> = Vec::new();
    let mut i: u16 = 0;
    proof {
        lemma_prepend_empty(
            parse_verification_types(old(reader).spec_data(), old(reader).spec_limit(), old(reader).spec_pos(), n as int),
        );
    }
    while i < n
        invariant
            reader.wf(),
            reader.same_source(old(reader)),
            i <= n,
            parse_verification_types(old(reader).spec_data(), old(reader).spec_limit(), old(reader).spec_pos(), n as int)
                == prepend(
                out@,
                parse_verification_types(reader.spec_data(), reader.spec_limit(), reader.spec_pos(), n - i),
            ),
        decreases n - i,
    {
        let v = read_verification_type(reader)?;
        proof {
            lemma_prepend_cons(
                out@,
                v,
                parse_verification_types(reader.spec_data(), reader.spec_limit(), reader.spec_pos(), n - i - 1),
            );
        }
        out.push(v);
        i += 1;
    }
    proof {
        assert(out@ + Seq::empty() =~= out@);
    }
    Ok(out)
}

/// A stack map frame: its frame type, the offset delta it stands for, and the
/// verification types it lists for the locals and the stack. A frame that
/// chops locals lists none; its count is `251 - frame_type`.
#[derive(Clone, Debug)]
pub struct StackMapFrame {
    pub frame_type: u8,
    pub offset_delta: u16,
    pub locals: Vec<VerificationTypeInfo>,
    pub stack: Vec<VerificationTypeInfo>,
}

/// A `StackMapFrame` with its lists as sequences.
pub ghost struct StackMapFrameModel {
    pub frame_type: u8,
    pub offset_delta: u16,
    pub locals: Seq<VerificationTypeInfo>,
    pub stack: Seq<VerificationTypeInfo>,
}

impl View for StackMapFrame {
    type V = StackMapFrameModel;

    open spec fn view(&self) -> StackMapFrameModel {
        StackMapFrameModel {
            frame_type: self.frame_type,
            offset_delta: self.offset_delta,
            locals: self.locals@,
            stack: self.stack@,
        }
    }
}

/// A frame with no locals and no stack.
pub open spec fn bare_frame(frame_type: u8, offset_delta: u16) -> StackMapFrameModel {
    StackMapFrameModel { frame_type, offset_delta, locals: Seq::empty(), stack: Seq::empty() }
}

/// The stack map frame at `p`. Types 0-63 are same frames, 64-127 same frames
/// with one stack item, 247 the same with an explicit delta, 248-250 chop
/// frames, 251 an extended same frame, 252-254 append frames and 255 a full
/// frame; 128-246 are reserved.
pub open spec fn parse_stack_map_frame(d: Seq<u8>, e: int, p: int) -> Parsed<StackMapFrameModel> {
    match take_u8(d, e, p) {
        Err(err) => Err(err),
        Ok((ft, p1)) => if ft <= 63 {
            Ok((bare_frame(ft, ft as u16), p1))
        } else if ft <= 127 {
            match parse_verification_type(d, e, p1) {
                Err(err) => Err(err),
                Ok((v, p2)) => Ok((
                    StackMapFrameModel { frame_type: ft, offset_delta: (ft - 64) as u16, locals: Seq::empty(), stack: seq![v] },
                    p2,
                )),
            }
        } else if ft <= 246 {
            Err(error_at(ErrorKind::MalformedTag, p))
        } else {
            match take_u16(d, e, p1) {
                Err(err) => Err(err),
                Ok((delta, p2)) => if ft == 247 {
                    match parse_verification_type(d, e, p2) {
                        Err(err) => Err(err),
                        Ok((v, p3)) => Ok((
                            StackMapFrameModel { frame_type: ft, offset_delta: delta, locals: Seq::empty(), stack: seq![v] },
                            p3,
                        )),
                    }
                } else if ft <= 251 {
                    Ok((bare_frame(ft, delta), p2))
                } else if ft <= 254 {
                    match parse_verification_types(d, e, p2, ft - 251) {
                        Err(err) => Err(err),
                        Ok((locals, p3)) => Ok((
                            StackMapFrameModel { frame_type: ft, offset_delta: delta, locals, stack: Seq::empty() },
                            p3,
                        )),
                    }
                } else {
                    match take_u16(d, e, p2) {
                        Err(err) => Err(err),
                        Ok((nl, p3)) => match parse_verification_types(d, e, p3, nl as int) {
                            Err(err) => Err(err),
                            Ok((locals, p4)) => match take_u16(d, e, p4) {
                                Err(err) => Err(err),
                                Ok((ns, p5)) => match parse_verification_types(d, e, p5, ns as int) {
                                    Err(err) => Err(err),
                                    Ok((stack, p6)) => Ok((
                                        StackMapFrameModel { frame_type: ft, offset_delta: delta, locals, stack },
                                        p6,
                                    )),
                                },
                            },
                        },
                    }
                },
            }
        },
    }
}

/// Reads one stack map frame
pub fn read_stack_map_frame(reader: &mut ByteReader) -> (r: Result<StackMapFrame, DecodeError>)
    requires
        old(reader).wf(),
    ensures
        final(reader).wf(),
        final(reader).same_source(old(reader)),
        agrees_view(
            r,
            final(reader).spec_pos(),
            parse_stack_map_frame(old(reader).spec_data(), old(reader).spec_limit(), old(reader).spec_pos()),
        ),
{
    let start = reader.position();
    let frame_type = reader.read_u8()?;
    if frame_type <= 63 {
        return Ok(StackMapFrame { frame_type, offset_delta: frame_type as u16, locals: Vec::new(), stack: Vec::new() });
    }
    if frame_type <= 127 {
        let v = read_verification_type(reader)?;
        let mut stack = Vec::new();
        stack.push(v);
        proof {
            assert(stack@ =~= seq![v]);
        }
        return Ok(StackMapFrame { frame_type, offset_delta: (frame_type - 64) as u16, locals: Vec::new(), stack });
    }
    if frame_type <= 246 {
        return Err(DecodeError { kind: ErrorKind::MalformedTag, offset: start });
    }
    let offset_delta = reader.read_u16()?;
    if frame_type == 247 {
        let v = read_verification_type(reader)?;
        let mut stack = Vec::new();
        stack.push(v);
        proof {
            assert(stack@ =~= seq![v]);
        }
        Ok(StackMapFrame { frame_type, offset_delta, locals: Vec::new(), stack })
    } else if frame_type <= 251 {
        Ok(StackMapFrame { frame_type, offset_delta, locals: Vec::new(), stack: Vec::new() })
    } else if frame_type <= 254 {
        let locals = read_verification_types(reader, (frame_type - 251) as u16)?;
        Ok(StackMapFrame { frame_type, offset_delta, locals, stack: Vec::new() })
    } else {
        let nl = reader.read_u16()?;
        let locals = read_verification_types(reader, nl)?;
        let ns = reader.read_u16()?;
        let stack = read_verification_types(reader, ns)?;
        Ok(StackMapFrame { frame_type, offset_delta, locals, stack })
    }
}

} // verus!
