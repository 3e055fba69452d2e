use rustivitypub::document::DocumentView;
use rustivitypub::error::PropertyError;
use rustivitypub::fetch::{object_from_fetched, FetchError};
use rustivitypub::image::ImageView;
use rustivitypub::json::JsonValue;
use rustivitypub::link::LinkView;
use rustivitypub::object::ObjectView;
use rustivitypub::object_or_link::{ImageOrLinkView, ObjectOrLinkView, ObjectOrLinkVariant};
use rustivitypub::single_or_multi::{SingleOrMultiJsonView, SingleOrMultiView};
use rustivitypub::value::{
    DateTimeView, DurationView, IriView, LanguageTagView, MediaTypeView, NaturalLanguageView,
};
use rustivitypub::TryFromJsonValue;

fn s(text: &str) -> JsonValue {
    JsonValue::String(String::from(text))
}

fn mapping(entries: Vec<(&str, JsonValue)>) -> JsonValue {
    JsonValue::Mapping(
        entries
            .into_iter()
            .map(|(k, v)| (String::from(k), v))
            .collect(),
    )
}

#[test]
fn validate_and_convert_agree_for_str() {
    let v = s("hello");
    assert!(<&str>::validate_json_value(&v).is_ok());
    assert_eq!(<&str>::try_from_json_value(&v), Ok("hello"));

    let n = JsonValue::Number(String::from("3"));
    assert_eq!(
        <&str>::validate_json_value(&n),
        Err(PropertyError::TypeMismatch)
    );
    assert_eq!(
        <&str>::try_from_json_value(&n),
        Err(PropertyError::TypeMismatch)
    );
}

#[test]
fn validate_success_means_no_type_mismatch() {
    // A malformed date-time passes shape validation (it is a string),
    // so conversion fails with a content error, never TypeMismatch.
    let v = s("not-a-date");
    assert!(DateTimeView::validate_json_value(&v).is_ok());
    let r = DateTimeView::try_from_json_value(&v);
    assert!(matches!(r, Err(PropertyError::InvalidFormat)));
}

#[test]
fn iri_round_trip_identity() {
    let v = s("https://example.com/a.png");
    let iri = IriView::try_from_json_value(&v).unwrap();
    assert_eq!(iri.as_str(), "https://example.com/a.png");
}

#[test]
fn iri_rejects_whitespace() {
    let v = s("not an iri");
    assert_eq!(
        IriView::try_from_json_value(&v).map(|i| i.as_str()),
        Err(PropertyError::InvalidFormat)
    );
    let n = JsonValue::Bool(true);
    assert_eq!(
        IriView::try_from_json_value(&n).map(|i| i.as_str()),
        Err(PropertyError::TypeMismatch)
    );
}

#[test]
fn single_and_wrapped_encode_same_sequence() {
    let single = s("a");
    let wrapped = JsonValue::Sequence(vec![s("a")]);
    let sv = SingleOrMultiJsonView::new(Some(&single));
    let wv = SingleOrMultiJsonView::new(Some(&wrapped));
    assert_eq!(sv.len(), 1);
    assert_eq!(wv.len(), 1);
    assert_eq!(sv.get(0), wv.get(0));
    assert_eq!(sv.get(0), Some(&s("a")));
}

#[test]
fn absent_property_is_empty_not_error() {
    let view = SingleOrMultiJsonView::absent();
    assert_eq!(view.len(), 0);
    assert_eq!(view.get(0), None);
    let mut iter = view.iter();
    assert_eq!(iter.next(), None);
}

#[test]
fn iteration_is_restartable() {
    let seq = JsonValue::Sequence(vec![s("a"), s("b"), s("c")]);
    let view = SingleOrMultiJsonView::new(Some(&seq));
    let mut first = Vec::new();
    let mut iter = view.iter();
    while let Some(v) = iter.next() {
        first.push(v);
    }
    let mut second = Vec::new();
    let mut iter = view.iter();
    while let Some(v) = iter.next() {
        second.push(v);
    }
    assert_eq!(first, second);
    assert_eq!(first.len(), 3);
}

#[test]
fn typed_elements_convert_lazily() {
    let seq = JsonValue::Sequence(vec![
        s("https://example.com/1"),
        s("broken iri"),
        s("https://example.com/2"),
    ]);
    let json = SingleOrMultiJsonView::new(Some(&seq));
    let typed: SingleOrMultiView<IriView> = SingleOrMultiView::new(json);
    assert_eq!(typed.len(), 3);
    // A malformed middle element blocks neither neighbour.
    assert_eq!(
        typed.get(0).unwrap().map(|i| i.as_str()),
        Ok("https://example.com/1")
    );
    assert_eq!(
        typed.get(1).unwrap().map(|i| i.as_str()),
        Err(PropertyError::InvalidFormat)
    );
    assert_eq!(
        typed.get(2).unwrap().map(|i| i.as_str()),
        Ok("https://example.com/2")
    );
    assert!(typed.get(3).is_none());

    let mut iter = typed.iter();
    assert_eq!(
        iter.next().unwrap().map(|i| i.as_str()),
        Ok("https://example.com/1")
    );
    assert_eq!(
        iter.next().unwrap().map(|i| i.as_str()),
        Err(PropertyError::InvalidFormat)
    );
    assert_eq!(
        iter.next().unwrap().map(|i| i.as_str()),
        Ok("https://example.com/2")
    );
    assert!(iter.next().is_none());
}

#[test]
fn bare_string_classifies_as_link() {
    let v = s("https://example.com/a.png");
    let view = ObjectOrLinkView::try_from_json_value(&v).unwrap();
    assert_eq!(view.variant(), ObjectOrLinkVariant::Link);
    assert_eq!(
        view.as_object().map(|_| ()),
        Err(PropertyError::AmbiguousVariant)
    );
    let link = view.as_link().unwrap();
    assert_eq!(link.href().unwrap().as_str(), "https://example.com/a.png");
}

#[test]
fn mapping_typed_link_classifies_as_link() {
    let v = mapping(vec![
        ("type", s("Link")),
        ("href", s("https://example.com/b")),
        ("hreflang", s("en")),
    ]);
    let view = ObjectOrLinkView::try_from_json_value(&v).unwrap();
    assert_eq!(view.variant(), ObjectOrLinkVariant::Link);
    let link = view.as_link().unwrap();
    assert_eq!(link.href().unwrap().as_str(), "https://example.com/b");
    assert_eq!(link.hreflang().unwrap().as_str(), "en");
}

#[test]
fn typeless_mapping_with_href_classifies_as_link() {
    let v = mapping(vec![("href", s("https://example.com/t"))]);
    let view = ObjectOrLinkView::try_from_json_value(&v).unwrap();
    assert_eq!(view.variant(), ObjectOrLinkVariant::Link);
    assert_eq!(
        view.as_link().unwrap().href().unwrap().as_str(),
        "https://example.com/t"
    );
    // A typeless mapping without href still reads as an embedded object.
    let o = mapping(vec![("name", s("plain"))]);
    let view = ObjectOrLinkView::try_from_json_value(&o).unwrap();
    assert_eq!(view.variant(), ObjectOrLinkVariant::Object);
}

#[test]
fn image_mapping_classifies_as_object_variant() {
    let v = mapping(vec![
        ("type", s("Image")),
        ("url", s("https://example.com/a.png")),
    ]);
    let view = ImageOrLinkView::try_from_json_value(&v).unwrap();
    assert_eq!(view.variant(), ObjectOrLinkVariant::Object);
    let image = view.as_image().unwrap();
    assert_eq!(image.url().unwrap().as_str(), "https://example.com/a.png");
    assert_eq!(
        view.as_link().map(|_| ()),
        Err(PropertyError::AmbiguousVariant)
    );

    let bare = s("https://example.com/a.png");
    let view = ImageOrLinkView::try_from_json_value(&bare).unwrap();
    assert_eq!(view.variant(), ObjectOrLinkVariant::Link);
}

#[test]
fn object_asked_for_link_is_ambiguous() {
    let v = mapping(vec![("type", s("Note"))]);
    let view = ObjectOrLinkView::try_from_json_value(&v).unwrap();
    assert_eq!(view.variant(), ObjectOrLinkVariant::Object);
    assert_eq!(
        view.as_link().map(|_| ()),
        Err(PropertyError::AmbiguousVariant)
    );
    assert!(view.as_object().is_ok());
}

#[test]
fn natural_language_enumerates_pairs_in_stored_order() {
    let v = mapping(vec![("en", s("Hello")), ("fr", s("Bonjour"))]);
    let view = NaturalLanguageView::try_from_json_value(&v).unwrap();
    assert_eq!(view.len(), 2);
    let first = view.lang_string_at(0);
    assert_eq!(first.tag(), Some("en"));
    assert_eq!(first.value(), "Hello");
    let second = view.lang_string_at(1);
    assert_eq!(second.tag(), Some("fr"));
    assert_eq!(second.value(), "Bonjour");
    assert_eq!(
        second.language_tag().unwrap().map(|t| String::from(t.as_str())),
        Some(String::from("fr"))
    );
}

#[test]
fn natural_language_single_string_is_one_untagged_pair() {
    let v = s("Hello");
    let view = NaturalLanguageView::try_from_json_value(&v).unwrap();
    assert_eq!(view.len(), 1);
    let only = view.lang_string_at(0);
    assert_eq!(only.tag(), None);
    assert_eq!(only.value(), "Hello");
    assert_eq!(
        only.language_tag()
            .map(|t| t.map(|tag| String::from(tag.as_str()))),
        Ok(None)
    );
}

#[test]
fn natural_language_rejects_non_string_values() {
    let v = mapping(vec![("en", JsonValue::Null)]);
    assert_eq!(
        NaturalLanguageView::validate_json_value(&v),
        Err(PropertyError::TypeMismatch)
    );
    assert!(NaturalLanguageView::try_from_json_value(&v).is_err());
}

#[test]
fn malformed_datetime_is_invalid_format_not_shape_mismatch() {
    let v = s("not-a-date");
    assert_eq!(
        DateTimeView::try_from_json_value(&v).map(|d| String::from(d.as_str())),
        Err(PropertyError::InvalidFormat)
    );
    let n = JsonValue::Number(String::from("5"));
    assert_eq!(
        DateTimeView::try_from_json_value(&n).map(|d| String::from(d.as_str())),
        Err(PropertyError::TypeMismatch)
    );
}

#[test]
fn datetime_grammar_cases() {
    let good = s("2024-01-15T10:30:00Z");
    assert_eq!(
        DateTimeView::try_from_json_value(&good).unwrap().as_str(),
        "2024-01-15T10:30:00Z"
    );
    let offset = s("2024-01-15T10:30:00+02:00");
    assert!(DateTimeView::try_from_json_value(&offset).is_ok());
    let bad_month = s("2024-13-15T10:30:00Z");
    assert!(DateTimeView::try_from_json_value(&bad_month).is_err());
    let bad_zone = s("2024-01-15T10:30:00");
    assert!(DateTimeView::try_from_json_value(&bad_zone).is_err());
}

#[test]
fn duration_grammar_cases() {
    for good in ["PT1S", "P1D", "P1DT2H", "P10M", "PT90M"] {
        let v = s(good);
        assert!(
            DurationView::try_from_json_value(&v).is_ok(),
            "{} should parse",
            good
        );
    }
    for bad in ["", "P", "PT", "P1", "PD", "1DT", "P1DT", "P1DT2HT3S", "not-a-duration"] {
        let v = s(bad);
        assert_eq!(
            DurationView::try_from_json_value(&v).map(|_| ()),
            Err(PropertyError::InvalidFormat),
            "{} should be rejected",
            bad
        );
    }
}

#[test]
fn media_type_grammar_cases() {
    let good = s("image/png");
    assert_eq!(
        MediaTypeView::try_from_json_value(&good).unwrap().as_str(),
        "image/png"
    );
    for bad in ["imagepng", "/png", "image/", "im/age/png", "image png/x"] {
        let v = s(bad);
        assert_eq!(
            MediaTypeView::try_from_json_value(&v).map(|_| ()),
            Err(PropertyError::InvalidFormat),
            "{} should be rejected",
            bad
        );
    }
}

#[test]
fn language_tag_grammar_cases() {
    for good in ["en", "en-US", "zh-Hant-TW", "x0"] {
        let v = s(good);
        assert!(
            LanguageTagView::try_from_json_value(&v).is_ok(),
            "{} should parse",
            good
        );
    }
    for bad in ["", "1en", "en--US", "en-", "-en", "en US"] {
        let v = s(bad);
        assert_eq!(
            LanguageTagView::try_from_json_value(&v).map(|_| ()),
            Err(PropertyError::InvalidFormat),
            "{} should be rejected",
            bad
        );
    }
}

#[test]
fn object_accessors_cover_the_error_taxonomy() {
    let v = mapping(vec![
        ("id", s("https://example.com/note/1")),
        ("type", s("Note")),
        ("name", mapping(vec![("en", s("A note"))])),
        ("published", s("2024-01-15T10:30:00Z")),
        ("duration", s("PT5M")),
        ("mediaType", s("text/markdown")),
        ("badIri", s("with space")),
        ("notText", JsonValue::Bool(false)),
    ]);
    let object = ObjectView::try_from_json_value(&v).unwrap();
    assert_eq!(object.id().unwrap().as_str(), "https://example.com/note/1");
    assert_eq!(object.object_type(), Ok("Note"));
    assert_eq!(object.name().unwrap().lang_string_at(0).value(), "A note");
    assert_eq!(
        object.published().unwrap().as_str(),
        "2024-01-15T10:30:00Z"
    );
    assert_eq!(object.duration().unwrap().as_str(), "PT5M");
    assert_eq!(object.media_type().unwrap().as_str(), "text/markdown");
    // Absent keys: MissingProperty.
    assert_eq!(
        object.url().map(|_| ()),
        Err(PropertyError::MissingProperty)
    );
    assert_eq!(
        object.content().map(|_| ()),
        Err(PropertyError::MissingProperty)
    );
    // Present key of the wrong shape: TypeMismatch.
    let v2 = mapping(vec![("content", JsonValue::Null)]);
    let object2 = ObjectView::try_from_json_value(&v2).unwrap();
    assert_eq!(
        object2.content().map(|_| ()),
        Err(PropertyError::TypeMismatch)
    );
}

#[test]
fn object_multi_properties_spread_and_default_to_empty() {
    let v = mapping(vec![
        ("attachment", JsonValue::Sequence(vec![
            s("https://example.com/att/1"),
            mapping(vec![("type", s("Note"))]),
        ])),
    ]);
    let object = ObjectView::try_from_json_value(&v).unwrap();
    let attachments = object.attachment();
    assert_eq!(attachments.len(), 2);
    let first = attachments.get(0).unwrap().unwrap();
    assert_eq!(first.variant(), ObjectOrLinkVariant::Link);
    let second = attachments.get(1).unwrap().unwrap();
    assert_eq!(second.variant(), ObjectOrLinkVariant::Object);
    // Absent multi-valued property: empty view, never an error.
    assert_eq!(object.icon().len(), 0);
}

#[test]
fn mapping_lookup_takes_first_match() {
    let v = mapping(vec![("id", s("https://example.com/first")), ("id", s("https://example.com/second"))]);
    let object = ObjectView::try_from_json_value(&v).unwrap();
    assert_eq!(object.id().unwrap().as_str(), "https://example.com/first");
}

#[test]
fn link_view_reads_mapping_properties() {
    let v = mapping(vec![
        ("href", s("https://example.com/l")),
        ("mediaType", s("text/html")),
    ]);
    let link = LinkView::try_from_json_value(&v).unwrap();
    assert_eq!(link.href().unwrap().as_str(), "https://example.com/l");
    assert_eq!(link.media_type().unwrap().as_str(), "text/html");
    assert_eq!(
        link.hreflang().map(|_| ()),
        Err(PropertyError::MissingProperty)
    );

    let empty = mapping(vec![]);
    let link = LinkView::try_from_json_value(&empty).unwrap();
    assert_eq!(link.href().map(|_| ()), Err(PropertyError::MissingProperty));
}

#[test]
fn document_exposes_context_and_object() {
    let v = mapping(vec![
        ("@context", s("https://www.w3.org/ns/activitystreams")),
        ("type", s("Note")),
    ]);
    let doc = DocumentView::try_from_json_value(&v).unwrap();
    assert_eq!(
        doc.context(),
        Ok(&s("https://www.w3.org/ns/activitystreams"))
    );
    assert_eq!(doc.object().object_type(), Ok("Note"));

    let bare = mapping(vec![("type", s("Note"))]);
    let doc = DocumentView::try_from_json_value(&bare).unwrap();
    assert_eq!(doc.context(), Err(PropertyError::MissingProperty));
}

#[test]
fn image_view_rejects_non_mapping() {
    let v = s("https://example.com/a.png");
    assert_eq!(
        ImageView::validate_json_value(&v),
        Err(PropertyError::TypeMismatch)
    );
    assert!(ImageView::try_from_json_value(&v).is_err());
}

#[test]
fn fetch_outcome_interpretation() {
    let failed: Result<JsonValue, FetchError> = Err(FetchError::NotFound);
    assert_eq!(
        object_from_fetched(&failed).map(|_| ()),
        Err(PropertyError::FetchFailed)
    );
    let wrong_shape: Result<JsonValue, FetchError> = Ok(s("https://example.com"));
    assert_eq!(
        object_from_fetched(&wrong_shape).map(|_| ()),
        Err(PropertyError::TypeMismatch)
    );
    let tree: Result<JsonValue, FetchError> = Ok(mapping(vec![("type", s("Person"))]));
    let object = object_from_fetched(&tree).unwrap();
    assert_eq!(object.object_type(), Ok("Person"));
}

#[test]
fn error_descriptions_are_distinct() {
    let kinds = [
        PropertyError::TypeMismatch,
        PropertyError::MissingProperty,
        PropertyError::InvalidFormat,
        PropertyError::AmbiguousVariant,
        PropertyError::FetchFailed,
    ];
    for (i, a) in kinds.iter().enumerate() {
        for (j, b) in kinds.iter().enumerate() {
            assert_eq!(i == j, a.describe() == b.describe());
        }
    }
}
