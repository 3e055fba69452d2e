//! The document view: the top-level mapping of an ActivityStreams
//! document, with its context metadata.

use vstd::prelude::*;

use crate::error::PropertyError;
use crate::json::{lookup, mapping_get, JsonValue};
use crate::object::ObjectView;
use crate::TryFromJsonValue;

verus! {

/// A borrowed mapping read as a whole document.
pub struct DocumentView<'a> {
    value: &'a JsonValue,
}

impl<'a> DocumentView<'a> {
    pub closed spec fn json(self) -> JsonValue {
        *self.value
    }

    pub open spec fn wf(self) -> bool {
        self.json() is Mapping
    }

    /// The raw value of the property under `key`, or `None`.
    pub open spec fn prop(self, key: Seq<char>) -> Option<JsonValue> {
        lookup(self.json()->Mapping_0@, key)
    }

    /// The document's `@context` value, raw: it may be a string, a
    /// mapping or a sequence, and this layer does not interpret it.
    pub fn context(&self) -> (r: Result<&'a JsonValue, PropertyError>)
        requires
            self.wf(),
        ensures
            match r {
                Ok(v) => self.prop("@context"@) == Some(*v),
                Err(e) => self.prop("@context"@) is None && e == PropertyError::MissingProperty,
            },
    {
        match self.value {
            JsonValue::Mapping(entries) => match mapping_get(entries, "@context") {
                Some(v) => Ok(v),
                None => Err(PropertyError::MissingProperty),
            },
            _ => {
                proof {
                    assert(false);
                }
                Err(PropertyError::MissingProperty)
            },
        }
    }

    /// The document's top-level object.
    pub fn object(&self) -> (r: ObjectView<'a>)
        requires
            self.wf(),
        ensures
            r.json() == self.json(),
            r.wf(),
    {
        ObjectView::wrap(self.value)
    }
}

impl<'a> TryFromJsonValue<'a> for DocumentView<'a> {
    open spec fn shape_ok(v: JsonValue) -> bool {
        v is Mapping
    }

    fn validate_json_value(value: &JsonValue) -> (r: Result<(), PropertyError>)
        ensures
            r is Ok <==> *value is Mapping,
            r is Err ==> r->Err_0 == PropertyError::TypeMismatch,
    {
        match *value {
            JsonValue::Mapping(_) => Ok(()),
            _ => Err(PropertyError::TypeMismatch),
        }
    }

    fn try_from_json_value(value: &'a JsonValue) -> (r: Result<Self, PropertyError>)
        ensures
            r is Ok <==> *value is Mapping,
            r is Ok ==> r->Ok_0.json() == *value && r->Ok_0.wf(),
            r is Err ==> r->Err_0 == PropertyError::TypeMismatch,
    {
        match value {
            JsonValue::Mapping(_) => Ok(DocumentView { value }),
            _ => Err(PropertyError::TypeMismatch),
        }
    }
}

} // verus!
