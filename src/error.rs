//! The failures a decode can end in.

use vstd::prelude::*;

verus! {

/// What went wrong.
#[derive(Clone, Copy, Debug, PartialEq, Eq, Structural)]
pub enum ErrorKind {
    /// A read went past the end of the buffer.
    UnexpectedEof,
    /// The first four bytes are not `0xCAFEBABE`.
    BadMagic,
    /// An unknown constant-pool tag or method-handle kind.
    MalformedTag,
    /// A pool index that is zero where zero is not allowed, absent, or of the wrong kind.
    BadPoolRef,
    /// An attribute name index that is absent from the pool or not a UTF-8 constant.
    BadAttributeName,
    /// An attribute name outside the fixed table of attribute names.
    UnknownAttribute,
    /// The bytes an attribute's payload takes differ from its declared length.
    LengthMismatch,
    /// A reference that the assembled class holds does not resolve.
    DanglingRef,
}

/// A failure, with the offset in the input at which it was found.
#[derive(Clone, Copy, Debug, PartialEq, Eq, Structural)]
pub struct DecodeError {
    pub kind: ErrorKind,
    pub offset: usize,
}

/// The error of the given kind at the given offset.
pub open spec fn error_at(kind: ErrorKind, offset: int) -> DecodeError {
    DecodeError { kind, offset: offset as usize }
}

impl DecodeError {
    /// A short human-readable description of the failure.
    pub fn message(&self) -> (r: &'static str) {
        match self.kind {
            ErrorKind::UnexpectedEof => "unexpected end of input",
            ErrorKind::BadMagic => "bad magic number",
            ErrorKind::MalformedTag => "malformed constant pool tag",
            ErrorKind::BadPoolRef => "bad constant pool reference",
            ErrorKind::BadAttributeName => "attribute name is not a UTF-8 constant",
            ErrorKind::UnknownAttribute => "unknown attribute",
            ErrorKind::LengthMismatch => "attribute length mismatch",
            ErrorKind::DanglingRef => "dangling constant pool reference",
        }
    }
}

} // verus!
