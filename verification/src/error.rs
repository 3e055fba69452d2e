//! The error taxonomy shared by every property access.

use vstd::prelude::*;

verus! {

/// Why a property access or a conversion failed.
#[derive(Debug, Clone, Copy, PartialEq, Eq, Structural)]
pub enum PropertyError {
    /// The JSON value's kind (string, number, mapping, sequence) is
    /// incompatible with the requested view type.
    TypeMismatch,
    /// A required property key is absent from a mapping.
    MissingProperty,
    /// The value has the right shape but fails content-level parsing
    /// (malformed IRI, date-time, duration, media type, language tag).
    InvalidFormat,
    /// An object-or-link value was asked for a variant it does not
    /// satisfy.
    AmbiguousVariant,
    /// The external resolve capability failed; always reported, never
    /// swallowed.
    FetchFailed,
}

impl PropertyError {
    /// A short diagnostic name for the error kind.
    pub fn describe(&self) -> (r: &'static str)
        ensures
            r@ == match *self {
                PropertyError::TypeMismatch => "type mismatch"@,
                PropertyError::MissingProperty => "missing property"@,
                PropertyError::InvalidFormat => "invalid format"@,
                PropertyError::AmbiguousVariant => "ambiguous variant"@,
                PropertyError::FetchFailed => "fetch failed"@,
            },
    {
        match *self {
            PropertyError::TypeMismatch => "type mismatch",
            PropertyError::MissingProperty => "missing property",
            PropertyError::InvalidFormat => "invalid format",
            PropertyError::AmbiguousVariant => "ambiguous variant",
            PropertyError::FetchFailed => "fetch failed",
        }
    }
}

} // verus!
