//! The object view: named, typed accessors over a borrowed mapping.

use vstd::prelude::*;

use crate::error::PropertyError;
use crate::json::{lookup, mapping_get, JsonValue};
use crate::object_or_link::{ImageOrLinkView, ObjectOrLinkView};
use crate::single_or_multi::{encoded_elements, SingleOrMultiJsonView, SingleOrMultiView};
use crate::text::{datetime_ok, duration_ok, iri_plausible, mediatype_ok};
use crate::value::{
    natural_language_shape, DateTimeView, DurationView, IriView, MediaTypeView,
    NaturalLanguageView,
};
use crate::TryFromJsonValue;

verus! {

/// A borrowed mapping read as an ActivityStreams object.
pub struct ObjectView<'a> {
    value: &'a JsonValue,
}

impl<'a> ObjectView<'a> {
    pub closed spec fn json(self) -> JsonValue {
        *self.value
    }

    pub open spec fn wf(self) -> bool {
        self.json() is Mapping
    }

    /// The raw value of the property under `key`, or `None`.
    pub open spec fn prop(self, key: Seq<char>) -> Option<JsonValue> {
        lookup(self.json()->Mapping_0@, key)
    }

    pub(crate) fn wrap(value: &'a JsonValue) -> (r: Self)
        requires
            *value is Mapping,
        ensures
            r.json() == *value,
            r.wf(),
    {
        ObjectView { value }
    }

    /// The raw value of the property under `key`, still borrowed from
    /// the tree.
    pub fn get_property(&self, key: &str) -> (r: Option<&'a JsonValue>)
        requires
            self.wf(),
        ensures
            match r {
                Some(v) => self.prop(key@) == Some(*v),
                None => self.prop(key@) is None,
            },
    {
        match self.value {
            JsonValue::Mapping(entries) => mapping_get(entries, key),
            _ => {
                proof {
                    assert(false);
                }
                None
            },
        }
    }

    /// The property under `key` as a single-or-multi view: an absent
    /// property is the empty view, never an error.
    pub fn multi_property(&self, key: &str) -> (r: SingleOrMultiJsonView<'a>)
        requires
            self.wf(),
        ensures
            r.raw() == self.prop(key@),
            r.elements() == encoded_elements(self.prop(key@)),
            self.prop(key@) is None ==> r.elements() == Seq::<JsonValue>::empty(),
    {
        SingleOrMultiJsonView::new(self.get_property(key))
    }

    /// The `id` property as an IRI.
    pub fn id(&self) -> (r: Result<IriView<'a>, PropertyError>)
        requires
            self.wf(),
        ensures
            match self.prop("id"@) {
                None => r is Err && r->Err_0 == PropertyError::MissingProperty,
                Some(v) => {
                    &&& r is Ok <==> (v is String && iri_plausible(v->String_0@))
                    &&& r is Ok ==> r->Ok_0.text() == v->String_0@
                    &&& !(v is String) ==> r is Err && r->Err_0 == PropertyError::TypeMismatch
                    &&& (v is String && !iri_plausible(v->String_0@)) ==> r is Err && r->Err_0
                        == PropertyError::InvalidFormat
                },
            },
    {
        match self.get_property("id") {
            None => Err(PropertyError::MissingProperty),
            Some(v) => IriView::try_from_json_value(v),
        }
    }

    /// The `type` property as a bare string.
    pub fn object_type(&self) -> (r: Result<&'a str, PropertyError>)
        requires
            self.wf(),
        ensures
            match self.prop("type"@) {
                None => r is Err && r->Err_0 == PropertyError::MissingProperty,
                Some(v) => {
                    &&& r is Ok <==> v is String
                    &&& r is Ok ==> r->Ok_0@ == v->String_0@
                    &&& !(v is String) ==> r is Err && r->Err_0 == PropertyError::TypeMismatch
                },
            },
    {
        match self.get_property("type") {
            None => Err(PropertyError::MissingProperty),
            Some(v) => <&str>::try_from_json_value(v),
        }
    }

    /// The `name` property as a natural-language value.
    pub fn name(&self) -> (r: Result<NaturalLanguageView<'a>, PropertyError>)
        requires
            self.wf(),
        ensures
            match self.prop("name"@) {
                None => r is Err && r->Err_0 == PropertyError::MissingProperty,
                Some(v) => {
                    &&& r is Ok <==> natural_language_shape(v)
                    &&& r is Ok ==> r->Ok_0.json() == v && r->Ok_0.wf()
                    &&& r is Err ==> r->Err_0 == PropertyError::TypeMismatch
                },
            },
    {
        match self.get_property("name") {
            None => Err(PropertyError::MissingProperty),
            Some(v) => NaturalLanguageView::try_from_json_value(v),
        }
    }

    /// The `content` property as a natural-language value.
    pub fn content(&self) -> (r: Result<NaturalLanguageView<'a>, PropertyError>)
        requires
            self.wf(),
        ensures
            match self.prop("content"@) {
                None => r is Err && r->Err_0 == PropertyError::MissingProperty,
                Some(v) => {
                    &&& r is Ok <==> natural_language_shape(v)
                    &&& r is Ok ==> r->Ok_0.json() == v && r->Ok_0.wf()
                    &&& r is Err ==> r->Err_0 == PropertyError::TypeMismatch
                },
            },
    {
        match self.get_property("content") {
            None => Err(PropertyError::MissingProperty),
            Some(v) => NaturalLanguageView::try_from_json_value(v),
        }
    }

    /// The `published` property as a date-time.
    pub fn published(&self) -> (r: Result<DateTimeView<'a>, PropertyError>)
        requires
            self.wf(),
        ensures
            match self.prop("published"@) {
                None => r is Err && r->Err_0 == PropertyError::MissingProperty,
                Some(v) => {
                    &&& r is Ok <==> (v is String && datetime_ok(v->String_0@))
                    &&& r is Ok ==> r->Ok_0.text() == v->String_0@
                    &&& !(v is String) ==> r is Err && r->Err_0 == PropertyError::TypeMismatch
                    &&& (v is String && !datetime_ok(v->String_0@)) ==> r is Err && r->Err_0
                        == PropertyError::InvalidFormat
                },
            },
    {
        match self.get_property("published") {
            None => Err(PropertyError::MissingProperty),
            Some(v) => DateTimeView::try_from_json_value(v),
        }
    }

    /// The `duration` property.
    pub fn duration(&self) -> (r: Result<DurationView<'a>, PropertyError>)
        requires
            self.wf(),
        ensures
            match self.prop("duration"@) {
                None => r is Err && r->Err_0 == PropertyError::MissingProperty,
                Some(v) => {
                    &&& r is Ok <==> (v is String && duration_ok(v->String_0@))
                    &&& r is Ok ==> r->Ok_0.text() == v->String_0@
                    &&& !(v is String) ==> r is Err && r->Err_0 == PropertyError::TypeMismatch
                    &&& (v is String && !duration_ok(v->String_0@)) ==> r is Err && r->Err_0
                        == PropertyError::InvalidFormat
                },
            },
    {
        match self.get_property("duration") {
            None => Err(PropertyError::MissingProperty),
            Some(v) => DurationView::try_from_json_value(v),
        }
    }

    /// The `mediaType` property.
    pub fn media_type(&self) -> (r: Result<MediaTypeView<'a>, PropertyError>)
        requires
            self.wf(),
        ensures
            match self.prop("mediaType"@) {
                None => r is Err && r->Err_0 == PropertyError::MissingProperty,
                Some(v) => {
                    &&& r is Ok <==> (v is String && mediatype_ok(v->String_0@))
                    &&& r is Ok ==> r->Ok_0.text() == v->String_0@
                    &&& !(v is String) ==> r is Err && r->Err_0 == PropertyError::TypeMismatch
                    &&& (v is String && !mediatype_ok(v->String_0@)) ==> r is Err && r->Err_0
                        == PropertyError::InvalidFormat
                },
            },
    {
        match self.get_property("mediaType") {
            None => Err(PropertyError::MissingProperty),
            Some(v) => MediaTypeView::try_from_json_value(v),
        }
    }

    /// The `url` property as an IRI.
    pub fn url(&self) -> (r: Result<IriView<'a>, PropertyError>)
        requires
            self.wf(),
        ensures
            match self.prop("url"@) {
                None => r is Err && r->Err_0 == PropertyError::MissingProperty,
                Some(v) => {
                    &&& r is Ok <==> (v is String && iri_plausible(v->String_0@))
                    &&& r is Ok ==> r->Ok_0.text() == v->String_0@
                    &&& !(v is String) ==> r is Err && r->Err_0 == PropertyError::TypeMismatch
                    &&& (v is String && !iri_plausible(v->String_0@)) ==> r is Err && r->Err_0
                        == PropertyError::InvalidFormat
                },
            },
    {
        match self.get_property("url") {
            None => Err(PropertyError::MissingProperty),
            Some(v) => IriView::try_from_json_value(v),
        }
    }

    /// The `attachment` property: zero, one or many objects or links.
    pub fn attachment(&self) -> (r: SingleOrMultiView<'a, ObjectOrLinkView<'a>>)
        requires
            self.wf(),
        ensures
            r.elements() == encoded_elements(self.prop("attachment"@)),
    {
        SingleOrMultiView::new(self.multi_property("attachment"))
    }

    /// The `icon` property: zero, one or many images or links.
    pub fn icon(&self) -> (r: SingleOrMultiView<'a, ImageOrLinkView<'a>>)
        requires
            self.wf(),
        ensures
            r.elements() == encoded_elements(self.prop("icon"@)),
    {
        SingleOrMultiView::new(self.multi_property("icon"))
    }
}

impl<'a> TryFromJsonValue<'a> for ObjectView<'a> {
    open spec fn shape_ok(v: JsonValue) -> bool {
        v is Mapping
    }

    fn validate_json_value(value: &JsonValue) -> (r: Result<(), PropertyError>)
        ensures
            r is Ok <==> *value is Mapping,
            r is Err ==> r->Err_0 == PropertyError::TypeMismatch,
    {
        match *value {
            JsonValue::Mapping(_) => Ok(()),
            _ => Err(PropertyError::TypeMismatch),
        }
    }

    fn try_from_json_value(value: &'a JsonValue) -> (r: Result<Self, PropertyError>)
        ensures
            r is Ok <==> *value is Mapping,
            r is Ok ==> r->Ok_0.json() == *value && r->Ok_0.wf(),
            r is Err ==> r->Err_0 == PropertyError::TypeMismatch,
    {
        match value {
            JsonValue::Mapping(_) => Ok(ObjectView { value }),
            _ => Err(PropertyError::TypeMismatch),
        }
    }
}

} // verus!
