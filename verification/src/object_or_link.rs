//! The object-or-link view: a property that is either an embedded
//! object or a reference link, classified without forcing an eager
//! decision.

use vstd::prelude::*;

use crate::error::PropertyError;
use crate::image::ImageView;
use crate::json::{lookup, mapping_get, str_eq, JsonValue};
use crate::link::LinkView;
use crate::object::ObjectView;
use crate::TryFromJsonValue;

verus! {

/// Which side of the object-or-link duality a value falls on.
#[derive(Debug, Clone, Copy, PartialEq, Eq, Structural)]
pub enum ObjectOrLinkVariant {
    Object,
    Link,
}

/// Whether a mapping reads as a link: either it declares itself one
/// by carrying the `type` value `"Link"`, or it lacks a `type`
/// altogether while still naming a target under `href` — a mapping
/// without object-defining content. A mapping with any other `type`,
/// or with neither `type` nor `href`, reads as an embedded object.
pub open spec fn mapping_is_link(v: JsonValue) -> bool {
    v is Mapping && match lookup(v->Mapping_0@, "type"@) {
        Some(t) => t is String && t->String_0@ == "Link"@,
        None => lookup(v->Mapping_0@, "href"@) is Some,
    }
}

/// Whether a value classifies as a link reference: a bare string, or
/// a mapping that reads as one.
pub open spec fn classifies_as_link(v: JsonValue) -> bool {
    v is String || mapping_is_link(v)
}

fn value_is_link(value: &JsonValue) -> (r: bool)
    requires
        *value is String || *value is Mapping,
    ensures
        r == classifies_as_link(*value),
{
    match value {
        JsonValue::String(_) => true,
        JsonValue::Mapping(entries) => match mapping_get(entries, "type") {
            Some(t) => match t {
                JsonValue::String(name) => str_eq(name.as_str(), "Link"),
                _ => false,
            },
            None => match mapping_get(entries, "href") {
                Some(_) => true,
                None => false,
            },
        },
        _ => false,
    }
}

/// A borrowed value that is either an embedded object or a link
/// reference.
pub struct ObjectOrLinkView<'a> {
    value: &'a JsonValue,
}

impl<'a> ObjectOrLinkView<'a> {
    pub closed spec fn json(self) -> JsonValue {
        *self.value
    }

    pub open spec fn wf(self) -> bool {
        self.json() is String || self.json() is Mapping
    }

    /// Which variant the value classifies as.
    pub fn variant(&self) -> (r: ObjectOrLinkVariant)
        requires
            self.wf(),
        ensures
            r == ObjectOrLinkVariant::Link <==> classifies_as_link(self.json()),
            r == ObjectOrLinkVariant::Object <==> !classifies_as_link(self.json()),
    {
        if value_is_link(self.value) {
            ObjectOrLinkVariant::Link
        } else {
            ObjectOrLinkVariant::Object
        }
    }

    /// The embedded object, if the value is one; asking an actual
    /// link for an object is an `AmbiguousVariant` error.
    pub fn as_object(&self) -> (r: Result<ObjectView<'a>, PropertyError>)
        requires
            self.wf(),
        ensures
            r is Ok <==> !classifies_as_link(self.json()),
            r is Ok ==> r->Ok_0.json() == self.json() && r->Ok_0.wf(),
            r is Err ==> r->Err_0 == PropertyError::AmbiguousVariant,
    {
        if value_is_link(self.value) {
            Err(PropertyError::AmbiguousVariant)
        } else {
            Ok(ObjectView::wrap(self.value))
        }
    }

    /// The link reference, if the value is one; asking an embedded
    /// object for a link is an `AmbiguousVariant` error.
    pub fn as_link(&self) -> (r: Result<LinkView<'a>, PropertyError>)
        requires
            self.wf(),
        ensures
            r is Ok <==> classifies_as_link(self.json()),
            r is Ok ==> r->Ok_0.json() == self.json() && r->Ok_0.wf(),
            r is Err ==> r->Err_0 == PropertyError::AmbiguousVariant,
    {
        if value_is_link(self.value) {
            Ok(LinkView::wrap(self.value))
        } else {
            Err(PropertyError::AmbiguousVariant)
        }
    }
}

impl<'a> TryFromJsonValue<'a> for ObjectOrLinkView<'a> {
    open spec fn shape_ok(v: JsonValue) -> bool {
        v is String || v is Mapping
    }

    fn validate_json_value(value: &JsonValue) -> (r: Result<(), PropertyError>)
        ensures
            r is Ok <==> (*value is String || *value is Mapping),
            r is Err ==> r->Err_0 == PropertyError::TypeMismatch,
    {
        match *value {
            JsonValue::String(_) => Ok(()),
            JsonValue::Mapping(_) => Ok(()),
            _ => Err(PropertyError::TypeMismatch),
        }
    }

    fn try_from_json_value(value: &'a JsonValue) -> (r: Result<Self, PropertyError>)
        ensures
            r is Ok <==> (*value is String || *value is Mapping),
            r is Ok ==> r->Ok_0.json() == *value && r->Ok_0.wf(),
            r is Err ==> r->Err_0 == PropertyError::TypeMismatch,
    {
        match value {
            JsonValue::String(_) => Ok(ObjectOrLinkView { value }),
            JsonValue::Mapping(_) => Ok(ObjectOrLinkView { value }),
            _ => Err(PropertyError::TypeMismatch),
        }
    }
}

/// The image-or-link specialization of the same duality: the object
/// variant is read as an image.
pub struct ImageOrLinkView<'a> {
    value: &'a JsonValue,
}

impl<'a> ImageOrLinkView<'a> {
    pub closed spec fn json(self) -> JsonValue {
        *self.value
    }

    pub open spec fn wf(self) -> bool {
        self.json() is String || self.json() is Mapping
    }

    /// Which variant the value classifies as.
    pub fn variant(&self) -> (r: ObjectOrLinkVariant)
        requires
            self.wf(),
        ensures
            r == ObjectOrLinkVariant::Link <==> classifies_as_link(self.json()),
            r == ObjectOrLinkVariant::Object <==> !classifies_as_link(self.json()),
    {
        if value_is_link(self.value) {
            ObjectOrLinkVariant::Link
        } else {
            ObjectOrLinkVariant::Object
        }
    }

    /// The embedded image, if the value is one.
    pub fn as_image(&self) -> (r: Result<ImageView<'a>, PropertyError>)
        requires
            self.wf(),
        ensures
            r is Ok <==> !classifies_as_link(self.json()),
            r is Ok ==> r->Ok_0.json() == self.json() && r->Ok_0.wf(),
            r is Err ==> r->Err_0 == PropertyError::AmbiguousVariant,
    {
        if value_is_link(self.value) {
            Err(PropertyError::AmbiguousVariant)
        } else {
            Ok(ImageView::wrap(self.value))
        }
    }

    /// The link reference, if the value is one.
    pub fn as_link(&self) -> (r: Result<LinkView<'a>, PropertyError>)
        requires
            self.wf(),
        ensures
            r is Ok <==> classifies_as_link(self.json()),
            r is Ok ==> r->Ok_0.json() == self.json() && r->Ok_0.wf(),
            r is Err ==> r->Err_0 == PropertyError::AmbiguousVariant,
    {
        if value_is_link(self.value) {
            Ok(LinkView::wrap(self.value))
        } else {
            Err(PropertyError::AmbiguousVariant)
        }
    }
}

impl<'a> TryFromJsonValue<'a> for ImageOrLinkView<'a> {
    open spec fn shape_ok(v: JsonValue) -> bool {
        v is String || v is Mapping
    }

    fn validate_json_value(value: &JsonValue) -> (r: Result<(), PropertyError>)
        ensures
            r is Ok <==> (*value is String || *value is Mapping),
            r is Err ==> r->Err_0 == PropertyError::TypeMismatch,
    {
        match *value {
            JsonValue::String(_) => Ok(()),
            JsonValue::Mapping(_) => Ok(()),
            _ => Err(PropertyError::TypeMismatch),
        }
    }

    fn try_from_json_value(value: &'a JsonValue) -> (r: Result<Self, PropertyError>)
        ensures
            r is Ok <==> (*value is String || *value is Mapping),
            r is Ok ==> r->Ok_0.json() == *value && r->Ok_0.wf(),
            r is Err ==> r->Err_0 == PropertyError::TypeMismatch,
    {
        match value {
            JsonValue::String(_) => Ok(ImageOrLinkView { value }),
            JsonValue::Mapping(_) => Ok(ImageOrLinkView { value }),
            _ => Err(PropertyError::TypeMismatch),
        }
    }
}

/// A bare string always classifies as a link, never as an object, so
/// asking it for the object variant must fail.
pub proof fn lemma_bare_string_is_link(v: JsonValue)
    requires
        v is String,
    ensures
        classifies_as_link(v),
{
}

} // verus!
