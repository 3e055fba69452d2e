//! Typed, read-only views over a parsed JSON tree following the
//! ActivityStreams object model.
//!
//! A consumer holds a [`json::JsonValue`] tree and obtains strongly
//! typed views onto single properties without copying the data: every
//! view borrows from the tree and only owns its interpretation.

use vstd::prelude::*;

pub mod document;
pub mod error;
pub mod fetch;
pub mod image;
pub mod json;
pub mod link;
pub mod object;
pub mod object_or_link;
pub mod single_or_multi;
pub mod text;
pub mod value;

pub use crate::document::DocumentView;
pub use crate::error::PropertyError;
pub use crate::image::ImageView;
pub use crate::link::LinkView;
pub use crate::object::ObjectView;
pub use crate::object_or_link::{ImageOrLinkView, ObjectOrLinkVariant, ObjectOrLinkView};
pub use crate::single_or_multi::{SingleOrMultiJsonView, SingleOrMultiJsonViewIter};
pub use crate::single_or_multi::{SingleOrMultiView, SingleOrMultiViewIter};
pub use crate::value::{DateTimeView, DurationView, IriView, LangStringView, LanguageTagView};
pub use crate::value::{MediaTypeView, NaturalLanguageView};

use crate::json::JsonValue;

verus! {

/// Attempt to construct `Self` by interpreting a borrowed JSON value.
///
/// `shape_ok` says which JSON kinds `Self` accepts; `validate_json_value`
/// decides exactly that, and `try_from_json_value` may then only fail
/// with a content-level error, never with `TypeMismatch`, on a value
/// whose shape was accepted.
pub trait TryFromJsonValue<'a>: Sized {
    /// Whether `v`'s kind (not its content) is compatible with `Self`.
    spec fn shape_ok(v: JsonValue) -> bool;

    /// Checks that the `Self` type object could be created from the
    /// given JSON value, as far as its shape goes; `Ok(())` does not
    /// promise that the full conversion would succeed.
    fn validate_json_value(value: &JsonValue) -> (r: Result<(), PropertyError>)
        ensures
            r is Ok <==> Self::shape_ok(*value),
            r is Err ==> r->Err_0 == PropertyError::TypeMismatch,
    ;

    /// Performs the conversion.
    fn try_from_json_value(value: &'a JsonValue) -> (r: Result<Self, PropertyError>)
        ensures
            Self::shape_ok(*value) ==> !(r is Err && r->Err_0 == PropertyError::TypeMismatch),
    ;
}

impl<'a> TryFromJsonValue<'a> for &'a str {
    open spec fn shape_ok(v: JsonValue) -> bool {
        v is String
    }

    fn validate_json_value(value: &JsonValue) -> (r: Result<(), PropertyError>)
        ensures
            r is Ok <==> *value is String,
            r is Err ==> r->Err_0 == PropertyError::TypeMismatch,
    {
        match *value {
            JsonValue::String(_) => Ok(()),
            _ => Err(PropertyError::TypeMismatch),
        }
    }

    fn try_from_json_value(value: &'a JsonValue) -> (r: Result<Self, PropertyError>)
        ensures
            r is Ok <==> *value is String,
            r is Ok ==> r->Ok_0@ == value->String_0@,
            r is Err ==> r->Err_0 == PropertyError::TypeMismatch,
    {
        if let Err(e) = Self::validate_json_value(value) {
            return Err(e);
        }
        match value {
            JsonValue::String(s) => Ok(s.as_str()),
            _ => Err(PropertyError::TypeMismatch),
        }
    }
}

} // verus!
