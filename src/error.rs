use vstd::prelude::*;

use crate::object::PackObject;

verus! {

/// Why a per-type rule refused what it found on the wire.
#[derive(Debug, Clone, PartialEq, Eq)]
pub enum DomainError {
    /// A raw identifier of the wrong byte length.
    InvalidLength { expected: usize, got: usize },
    /// A string the type's text parser refused, with the parser's reason.
    Malformed(String),
    /// A string that names no known language.
    UnknownLanguage,
    /// A wire shape the type never takes (bytes for a language, unit for an id).
    UnexpectedShape,
}

/// The failures of negotiation, decoding and encoding.
#[derive(Debug, Clone, PartialEq, Eq)]
pub enum CodecError {
    /// No format could be chosen; carries the offending media type text.
    UnsupportedMediaType(String),
    /// The body could not be decompressed or parsed in the given format.
    MalformedBody { format: PackObject<()>, reason: String },
    /// A per-type rule refused a value.
    UnknownDomainValue(DomainError),
    /// The response could not be serialized.
    SerializationFault(String),
}

/// The HTTP status that an error maps to: client errors for negotiation and
/// decoding, a server error for a failed serialization.
pub open spec fn status_of(e: CodecError) -> u16 {
    match e {
        CodecError::UnsupportedMediaType(_) => 415,
        CodecError::MalformedBody { .. } => 400,
        CodecError::UnknownDomainValue(_) => 400,
        CodecError::SerializationFault(_) => 500,
    }
}

impl CodecError {
    /// The HTTP status code of this error.
    pub fn status(&self) -> (r: u16)
        ensures
            r == status_of(*self),
    {
        match self {
            CodecError::UnsupportedMediaType(_) => 415,
            CodecError::MalformedBody { .. } => 400,
            CodecError::UnknownDomainValue(_) => 400,
            CodecError::SerializationFault(_) => 500,
        }
    }

    /// True for the errors a client caused.
    pub fn is_client_error(&self) -> (r: bool)
        ensures
            r == (400 <= status_of(*self) < 500),
    {
        !matches!(self, CodecError::SerializationFault(_))
    }
}

} // verus!
