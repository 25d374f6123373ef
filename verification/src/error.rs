//! The error taxonomy of the compiler. Every error is fatal and is
//! detected before any specification is emitted; each variant names the
//! offending key, type code, set, or directive.

use vstd::prelude::*;

verus! {

/// Spec-level mirror of [`Error`].
pub ghost enum ErrorV {
    /// The input file is missing (reported by the caller doing the I/O).
    NotFound { path: Seq<u8> },
    /// The document is malformed.
    Parse,
    /// A definition identifier was requested but no definition carries it.
    SchemaNotFound { id: Seq<u8> },
    /// No identifier was requested and the document holds more than one
    /// definition; the count is reported.
    AmbiguousSchema { count: int },
    /// A definition declares the same key name twice.
    DuplicateKey { name: Seq<u8> },
    /// A key's type code has no table entry and no matching directive.
    UnmappedType { key: Seq<u8>, code: Seq<u8> },
    /// Two directives match one key at the same precedence level.
    ConflictingOverride { key: Seq<u8> },
    /// Two nicks of one value set collapse to the same identifier.
    DuplicateVariant { set: Seq<u8>, ident: Seq<u8> },
    /// A flag set declares more nicks than the underlying width has bits.
    FlagOverflow { set: Seq<u8>, count: int },
}

/// A fatal compilation error.
#[derive(Debug, PartialEq, Eq)]
pub enum Error {
    /// The input file is missing (reported by the caller doing the I/O).
    NotFound { path: Vec<u8> },
    /// The document is malformed.
    Parse,
    /// A definition identifier was requested but no definition carries it.
    SchemaNotFound { id: Vec<u8> },
    /// No identifier was requested and the document holds more than one
    /// definition; the count is reported.
    AmbiguousSchema { count: usize },
    /// A definition declares the same key name twice.
    DuplicateKey { name: Vec<u8> },
    /// A key's type code has no table entry and no matching directive.
    UnmappedType { key: Vec<u8>, code: Vec<u8> },
    /// Two directives match one key at the same precedence level.
    ConflictingOverride { key: Vec<u8> },
    /// Two nicks of one value set collapse to the same identifier.
    DuplicateVariant { set: Vec<u8>, ident: Vec<u8> },
    /// A flag set declares more nicks than the underlying width has bits.
    FlagOverflow { set: Vec<u8>, count: usize },
}

impl View for Error {
    type V = ErrorV;

    open spec fn view(&self) -> ErrorV {
        match self {
            Error::NotFound { path } => ErrorV::NotFound { path: path@ },
            Error::Parse => ErrorV::Parse,
            Error::SchemaNotFound { id } => ErrorV::SchemaNotFound { id: id@ },
            Error::AmbiguousSchema { count } => ErrorV::AmbiguousSchema { count: *count as int },
            Error::DuplicateKey { name } => ErrorV::DuplicateKey { name: name@ },
            Error::UnmappedType { key, code } => ErrorV::UnmappedType {
                key: key@,
                code: code@,
            },
            Error::ConflictingOverride { key } => ErrorV::ConflictingOverride { key: key@ },
            Error::DuplicateVariant { set, ident } => ErrorV::DuplicateVariant {
                set: set@,
                ident: ident@,
            },
            Error::FlagOverflow { set, count } => ErrorV::FlagOverflow {
                set: set@,
                count: *count as int,
            },
        }
    }
}

impl DeepView for Error {
    type V = ErrorV;

    open spec fn deep_view(&self) -> ErrorV {
        self.view()
    }
}

} // verus!
