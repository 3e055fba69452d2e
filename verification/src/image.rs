//! The image view: an object view specialized to image content.

use vstd::prelude::*;

use crate::error::PropertyError;
use crate::json::{lookup, JsonValue};
use crate::object::ObjectView;
use crate::text::iri_plausible;
use crate::value::IriView;
use crate::TryFromJsonValue;

verus! {

/// A borrowed mapping read as an image object.
pub struct ImageView<'a> {
    value: &'a JsonValue,
}

impl<'a> ImageView<'a> {
    pub closed spec fn json(self) -> JsonValue {
        *self.value
    }

    pub open spec fn wf(self) -> bool {
        self.json() is Mapping
    }

    /// The raw value of the property under `key`, or `None`.
    pub open spec fn prop(self, key: Seq<char>) -> Option<JsonValue> {
        lookup(self.json()->Mapping_0@, key)
    }

    pub(crate) fn wrap(value: &'a JsonValue) -> (r: Self)
        requires
            *value is Mapping,
        ensures
            r.json() == *value,
            r.wf(),
    {
        ImageView { value }
    }

    /// The same mapping as a general object view, for the accessors
    /// every object shares.
    pub fn object(&self) -> (r: ObjectView<'a>)
        requires
            self.wf(),
        ensures
            r.json() == self.json(),
            r.wf(),
    {
        ObjectView::wrap(self.value)
    }

    /// The `url` property as the image's IRI.
    pub fn url(&self) -> (r: Result<IriView<'a>, PropertyError>)
        requires
            self.wf(),
        ensures
            match self.prop("url"@) {
                None => r is Err && r->Err_0 == PropertyError::MissingProperty,
                Some(v) => {
                    &&& r is Ok <==> (v is String && iri_plausible(v->String_0@))
                    &&& r is Ok ==> r->Ok_0.text() == v->String_0@
                    &&& !(v is String) ==> r is Err && r->Err_0 == PropertyError::TypeMismatch
                    &&& (v is String && !iri_plausible(v->String_0@)) ==> r is Err && r->Err_0
                        == PropertyError::InvalidFormat
                },
            },
    {
        self.object().url()
    }
}

impl<'a> TryFromJsonValue<'a> for ImageView<'a> {
    open spec fn shape_ok(v: JsonValue) -> bool {
        v is Mapping
    }

    fn validate_json_value(value: &JsonValue) -> (r: Result<(), PropertyError>)
        ensures
            r is Ok <==> *value is Mapping,
            r is Err ==> r->Err_0 == PropertyError::TypeMismatch,
    {
        match *value {
            JsonValue::Mapping(_) => Ok(()),
            _ => Err(PropertyError::TypeMismatch),
        }
    }

    fn try_from_json_value(value: &'a JsonValue) -> (r: Result<Self, PropertyError>)
        ensures
            r is Ok <==> *value is Mapping,
            r is Ok ==> r->Ok_0.json() == *value && r->Ok_0.wf(),
            r is Err ==> r->Err_0 == PropertyError::TypeMismatch,
    {
        match value {
            JsonValue::Mapping(_) => Ok(ImageView { value }),
            _ => Err(PropertyError::TypeMismatch),
        }
    }
}

} // verus!
