//! The link view: a reference to an object elsewhere, either a bare
//! IRI string or a mapping with link properties.

use vstd::prelude::*;

use crate::error::PropertyError;
use crate::json::{lookup, mapping_get, JsonValue};
use crate::text::{iri_plausible, langtag_ok, mediatype_ok};
use crate::value::{IriView, LanguageTagView, MediaTypeView};
use crate::TryFromJsonValue;

verus! {

/// A borrowed value read as a link reference: a bare string is the
/// target IRI itself, a mapping carries it under `href`.
pub struct LinkView<'a> {
    value: &'a JsonValue,
}

impl<'a> LinkView<'a> {
    pub closed spec fn json(self) -> JsonValue {
        *self.value
    }

    pub open spec fn wf(self) -> bool {
        self.json() is String || self.json() is Mapping
    }

    /// The raw value of the property under `key`; a bare-string link
    /// has no properties.
    pub open spec fn prop(self, key: Seq<char>) -> Option<JsonValue> {
        if self.json() is Mapping {
            lookup(self.json()->Mapping_0@, key)
        } else {
            None
        }
    }

    /// The raw value that names the link's target: the string itself,
    /// or the `href` property of the mapping.
    pub open spec fn target(self) -> Option<JsonValue> {
        if self.json() is String {
            Some(self.json())
        } else {
            self.prop("href"@)
        }
    }

    pub(crate) fn wrap(value: &'a JsonValue) -> (r: Self)
        requires
            *value is String || *value is Mapping,
        ensures
            r.json() == *value,
            r.wf(),
    {
        LinkView { value }
    }

    /// The raw value of the property under `key`.
    pub fn get_property(&self, key: &str) -> (r: Option<&'a JsonValue>)
        requires
            self.wf(),
        ensures
            match r {
                Some(v) => self.prop(key@) == Some(*v),
                None => self.prop(key@) is None,
            },
    {
        match self.value {
            JsonValue::Mapping(entries) => mapping_get(entries, key),
            _ => None,
        }
    }

    /// The link's target as an IRI.
    pub fn href(&self) -> (r: Result<IriView<'a>, PropertyError>)
        requires
            self.wf(),
        ensures
            match self.target() {
                None => r is Err && r->Err_0 == PropertyError::MissingProperty,
                Some(v) => {
                    &&& r is Ok <==> (v is String && iri_plausible(v->String_0@))
                    &&& r is Ok ==> r->Ok_0.text() == v->String_0@
                    &&& !(v is String) ==> r is Err && r->Err_0 == PropertyError::TypeMismatch
                    &&& (v is String && !iri_plausible(v->String_0@)) ==> r is Err && r->Err_0
                        == PropertyError::InvalidFormat
                },
            },
    {
        match self.value {
            JsonValue::String(_) => IriView::try_from_json_value(self.value),
            _ => match self.get_property("href") {
                None => Err(PropertyError::MissingProperty),
                Some(v) => IriView::try_from_json_value(v),
            },
        }
    }

    /// The `hreflang` property as a language tag.
    pub fn hreflang(&self) -> (r: Result<LanguageTagView<'a>, PropertyError>)
        requires
            self.wf(),
        ensures
            match self.prop("hreflang"@) {
                None => r is Err && r->Err_0 == PropertyError::MissingProperty,
                Some(v) => {
                    &&& r is Ok <==> (v is String && langtag_ok(v->String_0@))
                    &&& r is Ok ==> r->Ok_0.text() == v->String_0@
                    &&& !(v is String) ==> r is Err && r->Err_0 == PropertyError::TypeMismatch
                    &&& (v is String && !langtag_ok(v->String_0@)) ==> r is Err && r->Err_0
                        == PropertyError::InvalidFormat
                },
            },
    {
        match self.get_property("hreflang") {
            None => Err(PropertyError::MissingProperty),
            Some(v) => LanguageTagView::try_from_json_value(v),
        }
    }

    /// The `mediaType` property.
    pub fn media_type(&self) -> (r: Result<MediaTypeView<'a>, PropertyError>)
        requires
            self.wf(),
        ensures
            match self.prop("mediaType"@) {
                None => r is Err && r->Err_0 == PropertyError::MissingProperty,
                Some(v) => {
                    &&& r is Ok <==> (v is String && mediatype_ok(v->String_0@))
                    &&& r is Ok ==> r->Ok_0.text() == v->String_0@
                    &&& !(v is String) ==> r is Err && r->Err_0 == PropertyError::TypeMismatch
                    &&& (v is String && !mediatype_ok(v->String_0@)) ==> r is Err && r->Err_0
                        == PropertyError::InvalidFormat
                },
            },
    {
        match self.get_property("mediaType") {
            None => Err(PropertyError::MissingProperty),
            Some(v) => MediaTypeView::try_from_json_value(v),
        }
    }
}

impl<'a> TryFromJsonValue<'a> for LinkView<'a> {
    open spec fn shape_ok(v: JsonValue) -> bool {
        v is String || v is Mapping
    }

    fn validate_json_value(value: &JsonValue) -> (r: Result<(), PropertyError>)
        ensures
            r is Ok <==> (*value is String || *value is Mapping),
            r is Err ==> r->Err_0 == PropertyError::TypeMismatch,
    {
        match *value {
            JsonValue::String(_) => Ok(()),
            JsonValue::Mapping(_) => Ok(()),
            _ => Err(PropertyError::TypeMismatch),
        }
    }

    fn try_from_json_value(value: &'a JsonValue) -> (r: Result<Self, PropertyError>)
        ensures
            r is Ok <==> (*value is String || *value is Mapping),
            r is Ok ==> r->Ok_0.json() == *value && r->Ok_0.wf(),
            r is Err ==> r->Err_0 == PropertyError::TypeMismatch,
    {
        match value {
            JsonValue::String(_) => Ok(LinkView { value }),
            JsonValue::Mapping(_) => Ok(LinkView { value }),
            _ => Err(PropertyError::TypeMismatch),
        }
    }
}

} // verus!
