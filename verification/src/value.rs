//! Scalar value views: borrowed strings and mappings carrying a
//! verified interpretation.
//!
//! Every view here validates its content eagerly at construction, so
//! holding one is proof that the borrowed text satisfies its grammar.

use vstd::prelude::*;

use crate::error::PropertyError;
use crate::json::JsonValue;
use crate::text::{
    datetime_check, datetime_ok, duration_check, duration_ok, iri_check, iri_plausible,
    langtag_check, langtag_ok, mediatype_check, mediatype_ok,
};
use crate::TryFromJsonValue;

verus! {

/// A borrowed string checked to be a syntactically plausible IRI
/// reference.
pub struct IriView<'a> {
    raw: &'a str,
}

impl<'a> IriView<'a> {
    pub closed spec fn text(self) -> Seq<char> {
        self.raw@
    }

    pub open spec fn wf(self) -> bool {
        iri_plausible(self.text())
    }

    /// The underlying string, exactly as it stands in the tree.
    pub fn as_str(&self) -> (r: &'a str)
        ensures
            r@ == self.text(),
    {
        self.raw
    }
}

impl<'a> TryFromJsonValue<'a> for IriView<'a> {
    open spec fn shape_ok(v: JsonValue) -> bool {
        v is String
    }

    fn validate_json_value(value: &JsonValue) -> (r: Result<(), PropertyError>)
        ensures
            r is Ok <==> *value is String,
            r is Err ==> r->Err_0 == PropertyError::TypeMismatch,
    {
        match *value {
            JsonValue::String(_) => Ok(()),
            _ => Err(PropertyError::TypeMismatch),
        }
    }

    fn try_from_json_value(value: &'a JsonValue) -> (r: Result<Self, PropertyError>)
        ensures
            r is Ok <==> (*value is String && iri_plausible(value->String_0@)),
            r is Ok ==> r->Ok_0.text() == value->String_0@ && r->Ok_0.wf(),
            !(*value is String) ==> r is Err && r->Err_0 == PropertyError::TypeMismatch,
            *value is String && !iri_plausible(value->String_0@) ==> r is Err && r->Err_0
                == PropertyError::InvalidFormat,
    {
        match value {
            JsonValue::String(s) => {
                if iri_check(s.as_str()) {
                    Ok(IriView { raw: s.as_str() })
                } else {
                    Err(PropertyError::InvalidFormat)
                }
            },
            _ => Err(PropertyError::TypeMismatch),
        }
    }
}

/// A borrowed string checked against the date-time grammar.
pub struct DateTimeView<'a> {
    raw: &'a str,
}

impl<'a> DateTimeView<'a> {
    pub closed spec fn text(self) -> Seq<char> {
        self.raw@
    }

    pub open spec fn wf(self) -> bool {
        datetime_ok(self.text())
    }

    /// The underlying string, exactly as it stands in the tree.
    pub fn as_str(&self) -> (r: &'a str)
        ensures
            r@ == self.text(),
    {
        self.raw
    }
}

impl<'a> TryFromJsonValue<'a> for DateTimeView<'a> {
    open spec fn shape_ok(v: JsonValue) -> bool {
        v is String
    }

    fn validate_json_value(value: &JsonValue) -> (r: Result<(), PropertyError>)
        ensures
            r is Ok <==> *value is String,
            r is Err ==> r->Err_0 == PropertyError::TypeMismatch,
    {
        match *value {
            JsonValue::String(_) => Ok(()),
            _ => Err(PropertyError::TypeMismatch),
        }
    }

    fn try_from_json_value(value: &'a JsonValue) -> (r: Result<Self, PropertyError>)
        ensures
            r is Ok <==> (*value is String && datetime_ok(value->String_0@)),
            r is Ok ==> r->Ok_0.text() == value->String_0@ && r->Ok_0.wf(),
            !(*value is String) ==> r is Err && r->Err_0 == PropertyError::TypeMismatch,
            *value is String && !datetime_ok(value->String_0@) ==> r is Err && r->Err_0
                == PropertyError::InvalidFormat,
    {
        match value {
            JsonValue::String(s) => {
                if datetime_check(s.as_str()) {
                    Ok(DateTimeView { raw: s.as_str() })
                } else {
                    Err(PropertyError::InvalidFormat)
                }
            },
            _ => Err(PropertyError::TypeMismatch),
        }
    }
}

/// A borrowed string checked against the duration grammar.
pub struct DurationView<'a> {
    raw: &'a str,
}

impl<'a> DurationView<'a> {
    pub closed spec fn text(self) -> Seq<char> {
        self.raw@
    }

    pub open spec fn wf(self) -> bool {
        duration_ok(self.text())
    }

    /// The underlying string, exactly as it stands in the tree.
    pub fn as_str(&self) -> (r: &'a str)
        ensures
            r@ == self.text(),
    {
        self.raw
    }
}

impl<'a> TryFromJsonValue<'a> for DurationView<'a> {
    open spec fn shape_ok(v: JsonValue) -> bool {
        v is String
    }

    fn validate_json_value(value: &JsonValue) -> (r: Result<(), PropertyError>)
        ensures
            r is Ok <==> *value is String,
            r is Err ==> r->Err_0 == PropertyError::TypeMismatch,
    {
        match *value {
            JsonValue::String(_) => Ok(()),
            _ => Err(PropertyError::TypeMismatch),
        }
    }

    fn try_from_json_value(value: &'a JsonValue) -> (r: Result<Self, PropertyError>)
        ensures
            r is Ok <==> (*value is String && duration_ok(value->String_0@)),
            r is Ok ==> r->Ok_0.text() == value->String_0@ && r->Ok_0.wf(),
            !(*value is String) ==> r is Err && r->Err_0 == PropertyError::TypeMismatch,
            *value is String && !duration_ok(value->String_0@) ==> r is Err && r->Err_0
                == PropertyError::InvalidFormat,
    {
        match value {
            JsonValue::String(s) => {
                if duration_check(s.as_str()) {
                    Ok(DurationView { raw: s.as_str() })
                } else {
                    Err(PropertyError::InvalidFormat)
                }
            },
            _ => Err(PropertyError::TypeMismatch),
        }
    }
}

/// A borrowed string checked against the media-type grammar.
pub struct MediaTypeView<'a> {
    raw: &'a str,
}

impl<'a> MediaTypeView<'a> {
    pub closed spec fn text(self) -> Seq<char> {
        self.raw@
    }

    pub open spec fn wf(self) -> bool {
        mediatype_ok(self.text())
    }

    /// The underlying string, exactly as it stands in the tree.
    pub fn as_str(&self) -> (r: &'a str)
        ensures
            r@ == self.text(),
    {
        self.raw
    }
}

impl<'a> TryFromJsonValue<'a> for MediaTypeView<'a> {
    open spec fn shape_ok(v: JsonValue) -> bool {
        v is String
    }

    fn validate_json_value(value: &JsonValue) -> (r: Result<(), PropertyError>)
        ensures
            r is Ok <==> *value is String,
            r is Err ==> r->Err_0 == PropertyError::TypeMismatch,
    {
        match *value {
            JsonValue::String(_) => Ok(()),
            _ => Err(PropertyError::TypeMismatch),
        }
    }

    fn try_from_json_value(value: &'a JsonValue) -> (r: Result<Self, PropertyError>)
        ensures
            r is Ok <==> (*value is String && mediatype_ok(value->String_0@)),
            r is Ok ==> r->Ok_0.text() == value->String_0@ && r->Ok_0.wf(),
            !(*value is String) ==> r is Err && r->Err_0 == PropertyError::TypeMismatch,
            *value is String && !mediatype_ok(value->String_0@) ==> r is Err && r->Err_0
                == PropertyError::InvalidFormat,
    {
        match value {
            JsonValue::String(s) => {
                if mediatype_check(s.as_str()) {
                    Ok(MediaTypeView { raw: s.as_str() })
                } else {
                    Err(PropertyError::InvalidFormat)
                }
            },
            _ => Err(PropertyError::TypeMismatch),
        }
    }
}

/// A borrowed string checked against the language-tag grammar.
pub struct LanguageTagView<'a> {
    raw: &'a str,
}

impl<'a> LanguageTagView<'a> {
    pub closed spec fn text(self) -> Seq<char> {
        self.raw@
    }

    pub open spec fn wf(self) -> bool {
        langtag_ok(self.text())
    }

    /// The underlying string, exactly as it stands in the tree.
    pub fn as_str(&self) -> (r: &'a str)
        ensures
            r@ == self.text(),
    {
        self.raw
    }
}

impl<'a> TryFromJsonValue<'a> for LanguageTagView<'a> {
    open spec fn shape_ok(v: JsonValue) -> bool {
        v is String
    }

    fn validate_json_value(value: &JsonValue) -> (r: Result<(), PropertyError>)
        ensures
            r is Ok <==> *value is String,
            r is Err ==> r->Err_0 == PropertyError::TypeMismatch,
    {
        match *value {
            JsonValue::String(_) => Ok(()),
            _ => Err(PropertyError::TypeMismatch),
        }
    }

    fn try_from_json_value(value: &'a JsonValue) -> (r: Result<Self, PropertyError>)
        ensures
            r is Ok <==> (*value is String && langtag_ok(value->String_0@)),
            r is Ok ==> r->Ok_0.text() == value->String_0@ && r->Ok_0.wf(),
            !(*value is String) ==> r is Err && r->Err_0 == PropertyError::TypeMismatch,
            *value is String && !langtag_ok(value->String_0@) ==> r is Err && r->Err_0
                == PropertyError::InvalidFormat,
    {
        match value {
            JsonValue::String(s) => {
                if langtag_check(s.as_str()) {
                    Ok(LanguageTagView { raw: s.as_str() })
                } else {
                    Err(PropertyError::InvalidFormat)
                }
            },
            _ => Err(PropertyError::TypeMismatch),
        }
    }
}

/// A single language-tagged string: a value paired with an optional
/// language tag, both borrowed.
pub struct LangStringView<'a> {
    value: &'a str,
    tag: Option<&'a str>,
}

impl<'a> LangStringView<'a> {
    pub closed spec fn text(self) -> Seq<char> {
        self.value@
    }

    pub closed spec fn tag_text(self) -> Option<Seq<char>> {
        match self.tag {
            Some(t) => Some(t@),
            None => None,
        }
    }

    pub fn new(value: &'a str, tag: Option<&'a str>) -> (r: Self)
        ensures
            r.text() == value@,
            r.tag_text() == match tag {
                Some(t) => Some(t@),
                None => None::<Seq<char>>,
            },
    {
        LangStringView { value, tag }
    }

    /// The string itself.
    pub fn value(&self) -> (r: &'a str)
        ensures
            r@ == self.text(),
    {
        self.value
    }

    /// The raw tag text, if the string carries one.
    pub fn tag(&self) -> (r: Option<&'a str>)
        ensures
            r is Some <==> self.tag_text() is Some,
            r is Some ==> r->0@ == self.tag_text()->0,
    {
        self.tag
    }

    /// The tag as a validated language tag; checking happens here,
    /// lazily, so a malformed tag surfaces as `InvalidFormat` only
    /// when asked for.
    pub fn language_tag(&self) -> (r: Result<Option<LanguageTagView<'a>>, PropertyError>)
        ensures
            match self.tag_text() {
                None => r == Ok::<Option<LanguageTagView<'a>>, PropertyError>(None),
                Some(t) => if langtag_ok(t) {
                    r is Ok && r->Ok_0 is Some && r->Ok_0->0.text() == t
                } else {
                    r == Err::<Option<LanguageTagView<'a>>, PropertyError>(
                        PropertyError::InvalidFormat,
                    )
                },
            },
    {
        match self.tag {
            None => Ok(None),
            Some(t) => {
                if langtag_check(t) {
                    Ok(Some(LanguageTagView { raw: t }))
                } else {
                    Err(PropertyError::InvalidFormat)
                }
            },
        }
    }
}

/// Whether `v` can back a natural-language property: a bare string,
/// or a mapping whose every value is a string.
pub open spec fn natural_language_shape(v: JsonValue) -> bool {
    ||| v is String
    ||| (v is Mapping && forall|i: int|
        0 <= i < v->Mapping_0@.len() ==> (#[trigger] v->Mapping_0@[i]).1 is String)
}

/// A natural-language property: either one untagged string or a
/// mapping from language tag to string, enumerated as (tag, value)
/// pairs in stored order.
pub struct NaturalLanguageView<'a> {
    value: &'a JsonValue,
}

impl<'a> NaturalLanguageView<'a> {
    pub closed spec fn json(self) -> JsonValue {
        *self.value
    }

    pub open spec fn wf(self) -> bool {
        natural_language_shape(self.json())
    }

    /// How many (tag, value) pairs the property holds.
    pub open spec fn count(self) -> nat {
        if self.json() is String {
            1
        } else {
            self.json()->Mapping_0@.len()
        }
    }

    /// The tag of pair `i`: none for the untagged single string.
    pub open spec fn tag_at(self, i: int) -> Option<Seq<char>> {
        if self.json() is String {
            None
        } else {
            Some(self.json()->Mapping_0@[i].0@)
        }
    }

    /// The value of pair `i`.
    pub open spec fn value_at(self, i: int) -> Seq<char> {
        if self.json() is String {
            self.json()->String_0@
        } else {
            self.json()->Mapping_0@[i].1->String_0@
        }
    }

    /// How many (tag, value) pairs the property holds.
    pub fn len(&self) -> (r: usize)
        requires
            self.wf(),
        ensures
            r == self.count(),
    {
        match self.value {
            JsonValue::String(_) => 1,
            JsonValue::Mapping(entries) => entries.len(),
            _ => {
                proof {
                    assert(false);
                }
                0
            },
        }
    }

    /// Pair `i` as a language-tagged string.
    pub fn lang_string_at(&self, i: usize) -> (r: LangStringView<'a>)
        requires
            self.wf(),
            i < self.count(),
        ensures
            r.text() == self.value_at(i as int),
            r.tag_text() == self.tag_at(i as int),
    {
        match self.value {
            JsonValue::String(s) => LangStringView { value: s.as_str(), tag: None },
            JsonValue::Mapping(entries) => {
                let entry = &entries[i];
                match &entry.1 {
                    JsonValue::String(s) => LangStringView {
                        value: s.as_str(),
                        tag: Some(entry.0.as_str()),
                    },
                    _ => {
                        proof {
                            assert(false);
                        }
                        LangStringView { value: "", tag: None }
                    },
                }
            },
            _ => {
                proof {
                    assert(false);
                }
                LangStringView { value: "", tag: None }
            },
        }
    }
}

impl<'a> TryFromJsonValue<'a> for NaturalLanguageView<'a> {
    open spec fn shape_ok(v: JsonValue) -> bool {
        natural_language_shape(v)
    }

    fn validate_json_value(value: &JsonValue) -> (r: Result<(), PropertyError>)
        ensures
            r is Ok <==> natural_language_shape(*value),
            r is Err ==> r->Err_0 == PropertyError::TypeMismatch,
    {
        match value {
            JsonValue::String(_) => Ok(()),
            JsonValue::Mapping(entries) => {
                let n = entries.len();
                let mut i: usize = 0;
                while i < n
                    invariant
                        n == entries@.len(),
                        0 <= i <= n,
                        (*value)->Mapping_0 == *entries,
                        *value is Mapping,
                        forall|j: int| 0 <= j < i ==> (#[trigger] entries@[j]).1 is String,
                    decreases n - i,
                {
                    match &entries[i].1 {
                        JsonValue::String(_) => {},
                        _ => {
                            proof {
                                assert((*value)->Mapping_0 == *entries);
                                assert(!((#[trigger] (*value)->Mapping_0@[i as int]).1 is String));
                            }
                            return Err(PropertyError::TypeMismatch);
                        },
                    }
                    i += 1;
                }
                Ok(())
            },
            _ => Err(PropertyError::TypeMismatch),
        }
    }

    fn try_from_json_value(value: &'a JsonValue) -> (r: Result<Self, PropertyError>)
        ensures
            r is Ok <==> natural_language_shape(*value),
            r is Ok ==> r->Ok_0.json() == *value && r->Ok_0.wf(),
            r is Err ==> r->Err_0 == PropertyError::TypeMismatch,
    {
        if let Err(e) = Self::validate_json_value(value) {
            return Err(e);
        }
        Ok(NaturalLanguageView { value })
    }
}

} // verus!
