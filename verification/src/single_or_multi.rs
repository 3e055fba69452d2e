//! The single-or-multi cardinality view: a property that may be
//! absent, one value, or an ordered sequence of values, presented
//! uniformly as a finite, restartable sequence of elements.

use vstd::prelude::*;

use core::marker::PhantomData;

use crate::error::PropertyError;
use crate::json::JsonValue;
use crate::TryFromJsonValue;

verus! {

/// The sequence a raw property value encodes: absence is the empty
/// sequence, a JSON sequence spreads in document order, and any other
/// value stands alone as a one-element sequence.
pub open spec fn encoded_elements(raw: Option<JsonValue>) -> Seq<JsonValue> {
    match raw {
        None => Seq::empty(),
        Some(v) => if v is Sequence {
            v->Sequence_0@
        } else {
            seq![v]
        },
    }
}

/// The JSON-level form: elements stay raw JSON values.
///
/// The container shape itself is always acceptable: absence gives an
/// empty sequence, never an error.
#[derive(Clone, Copy)]
pub struct SingleOrMultiJsonView<'a> {
    value: Option<&'a JsonValue>,
}

impl<'a> SingleOrMultiJsonView<'a> {
    /// The raw property value, or `None` for an absent property.
    pub closed spec fn raw(self) -> Option<JsonValue> {
        match self.value {
            Some(v) => Some(*v),
            None => None,
        }
    }

    /// The logical sequence the property encodes: absence is the
    /// empty sequence, a JSON sequence spreads in document order, and
    /// any other value stands alone as a one-element sequence.
    pub open spec fn elements(self) -> Seq<JsonValue> {
        encoded_elements(self.raw())
    }

    /// Wraps a property value, or its absence.
    pub fn new(value: Option<&'a JsonValue>) -> (r: Self)
        ensures
            r.raw() == match value {
                Some(v) => Some(*v),
                None => None::<JsonValue>,
            },
            r.elements() == encoded_elements(r.raw()),
            value is None ==> r.elements() == Seq::<JsonValue>::empty(),
    {
        SingleOrMultiJsonView { value }
    }

    /// The view of an absent property: a zero-element sequence.
    pub fn absent() -> (r: Self)
        ensures
            r.raw() is None,
            r.elements() == Seq::<JsonValue>::empty(),
    {
        SingleOrMultiJsonView { value: None }
    }

    pub fn len(&self) -> (r: usize)
        ensures
            r == self.elements().len(),
    {
        match self.value {
            None => 0,
            Some(v) => match v {
                JsonValue::Sequence(items) => items.len(),
                _ => 1,
            },
        }
    }

    /// Element `i` of the encoded sequence, still raw.
    pub fn get(&self, i: usize) -> (r: Option<&'a JsonValue>)
        ensures
            i < self.elements().len() ==> r is Some && *r->0 == self.elements()[i as int],
            i >= self.elements().len() ==> r is None,
    {
        match self.value {
            None => None,
            Some(v) => match v {
                JsonValue::Sequence(items) => {
                    if i < items.len() {
                        Some(&items[i])
                    } else {
                        None
                    }
                },
                _ => {
                    if i == 0 {
                        Some(v)
                    } else {
                        None
                    }
                },
            },
        }
    }

    /// A fresh iterator over the encoded sequence. The view only
    /// borrows, so iteration can be restarted at will and reproduces
    /// the same sequence each time.
    pub fn iter(&self) -> (r: SingleOrMultiJsonViewIter<'a>)
        ensures
            r.view_elements() == self.elements(),
            r.position() == 0,
    {
        SingleOrMultiJsonViewIter { view: *self, pos: 0 }
    }
}

impl<'a> TryFromJsonValue<'a> for SingleOrMultiJsonView<'a> {
    /// Every shape is acceptable: absent, single and sequence are all
    /// valid encodings.
    open spec fn shape_ok(v: JsonValue) -> bool {
        true
    }

    fn validate_json_value(value: &JsonValue) -> (r: Result<(), PropertyError>)
        ensures
            r is Ok,
    {
        Ok(())
    }

    fn try_from_json_value(value: &'a JsonValue) -> (r: Result<Self, PropertyError>)
        ensures
            r is Ok,
            r->Ok_0.raw() == Some(*value),
    {
        Ok(SingleOrMultiJsonView { value: Some(value) })
    }
}

/// An iterator over a [`SingleOrMultiJsonView`]; it owns only a copy
/// of the view and a position, so dropping or restarting it destroys
/// nothing.
pub struct SingleOrMultiJsonViewIter<'a> {
    view: SingleOrMultiJsonView<'a>,
    pos: usize,
}

impl<'a> SingleOrMultiJsonViewIter<'a> {
    pub closed spec fn view_elements(self) -> Seq<JsonValue> {
        self.view.elements()
    }

    pub closed spec fn position(self) -> int {
        self.pos as int
    }

    /// The elements not yet yielded, in order.
    pub open spec fn remaining(self) -> Seq<JsonValue> {
        self.view_elements().skip(self.position())
    }

    pub fn next(&mut self) -> (r: Option<&'a JsonValue>)
        ensures
            final(self).view_elements() == old(self).view_elements(),
            old(self).position() < old(self).view_elements().len() ==> (r is Some
                && *r->0 == old(self).view_elements()[old(self).position()]
                && final(self).position() == old(self).position() + 1),
            old(self).position() >= old(self).view_elements().len() ==> (r is None
                && final(self).position() == old(self).position()),
    {
        let n = self.view.len();
        if self.pos < n {
            let r = self.view.get(self.pos);
            self.pos += 1;
            r
        } else {
            None
        }
    }
}

/// What an iterator yields is a function of its view and position
/// alone, so two iterations over the same underlying property yield
/// the same sequence both times.
pub proof fn lemma_iteration_restartable(
    a: SingleOrMultiJsonViewIter,
    b: SingleOrMultiJsonViewIter,
)
    requires
        a.view_elements() == b.view_elements(),
        a.position() == b.position(),
    ensures
        a.remaining() == b.remaining(),
{
}

/// A property encoded as a single value and the same value wrapped in
/// a one-element sequence encode the same one-element property.
pub proof fn lemma_single_equals_wrapped(
    a: SingleOrMultiJsonView,
    b: SingleOrMultiJsonView,
    v: JsonValue,
    w: JsonValue,
)
    requires
        a.raw() == Some(v),
        !(v is Sequence),
        b.raw() == Some(w),
        w is Sequence,
        w->Sequence_0@ == seq![v],
    ensures
        a.elements() == b.elements(),
        a.elements().len() == 1,
        a.elements()[0] == v,
{
    assert(a.elements() =~= b.elements());
}

/// An absent property is a zero-element sequence, never an error.
pub proof fn lemma_absent_is_empty(a: SingleOrMultiJsonView)
    requires
        a.raw() is None,
    ensures
        a.elements().len() == 0,
{
}

/// The typed form: elements are converted on demand through
/// [`TryFromJsonValue`], so an error surfaces per element, only when
/// that element is pulled, and blocks no other element.
pub struct SingleOrMultiView<'a, T: TryFromJsonValue<'a>> {
    json: SingleOrMultiJsonView<'a>,
    marker: PhantomData<T>,
}

impl<'a, T: TryFromJsonValue<'a>> SingleOrMultiView<'a, T> {
    /// The raw elements backing this view.
    pub closed spec fn elements(self) -> Seq<JsonValue> {
        self.json.elements()
    }

    pub fn new(json: SingleOrMultiJsonView<'a>) -> (r: Self)
        ensures
            r.elements() == json.elements(),
    {
        SingleOrMultiView { json, marker: PhantomData }
    }

    pub fn len(&self) -> (r: usize)
        ensures
            r == self.elements().len(),
    {
        self.json.len()
    }

    /// Converts element `i`; a raw element whose shape `T` accepts
    /// never converts into a `TypeMismatch`, and what comes back is
    /// exactly an outcome `T::try_from_json_value` admits on that
    /// element, so a concrete `T`'s own contract applies to it.
    pub fn get(&self, i: usize) -> (r: Option<Result<T, PropertyError>>)
        ensures
            i >= self.elements().len() ==> r is None,
            i < self.elements().len() ==> r is Some && (T::shape_ok(self.elements()[i as int])
                ==> !(r->0 is Err && r->0->Err_0 == PropertyError::TypeMismatch)),
            i < self.elements().len() ==> r is Some && (exists|el: &'a JsonValue|
                *el == self.elements()[i as int] && #[trigger] call_ensures(
                    T::try_from_json_value,
                    (el,),
                    r->0,
                )),
    {
        match self.json.get(i) {
            None => None,
            Some(v) => {
                let converted = T::try_from_json_value(v);
                proof {
                    assert(call_ensures(T::try_from_json_value, (v,), converted));
                }
                Some(converted)
            },
        }
    }

    /// A fresh, restartable iterator over the converted elements.
    pub fn iter(&self) -> (r: SingleOrMultiViewIter<'a, T>)
        ensures
            r.view_elements() == self.elements(),
            r.position() == 0,
    {
        SingleOrMultiViewIter {
            json: SingleOrMultiJsonViewIter { view: self.json, pos: 0 },
            marker: PhantomData,
        }
    }
}

/// An iterator over a [`SingleOrMultiView`], converting each element
/// as it is pulled.
pub struct SingleOrMultiViewIter<'a, T: TryFromJsonValue<'a>> {
    json: SingleOrMultiJsonViewIter<'a>,
    marker: PhantomData<T>,
}

impl<'a, T: TryFromJsonValue<'a>> SingleOrMultiViewIter<'a, T> {
    pub closed spec fn view_elements(self) -> Seq<JsonValue> {
        self.json.view_elements()
    }

    pub closed spec fn position(self) -> int {
        self.json.position()
    }

    /// Converts the next element as it is pulled: the result is
    /// exactly an outcome `T::try_from_json_value` admits on the
    /// element at the old position, so a concrete `T`'s own contract
    /// applies to it.
    pub fn next(&mut self) -> (r: Option<Result<T, PropertyError>>)
        ensures
            final(self).view_elements() == old(self).view_elements(),
            old(self).position() < old(self).view_elements().len() ==> (r is Some
                && final(self).position() == old(self).position() + 1 && (T::shape_ok(
                old(self).view_elements()[old(self).position()],
            ) ==> !(r->0 is Err && r->0->Err_0 == PropertyError::TypeMismatch))),
            old(self).position() < old(self).view_elements().len() ==> (r is Some && (exists|
                el: &'a JsonValue,
            |
                *el == old(self).view_elements()[old(self).position()] && #[trigger] call_ensures(
                    T::try_from_json_value,
                    (el,),
                    r->0,
                ))),
            old(self).position() >= old(self).view_elements().len() ==> (r is None
                && final(self).position() == old(self).position()),
    {
        match self.json.next() {
            None => None,
            Some(v) => {
                let converted = T::try_from_json_value(v);
                proof {
                    assert(call_ensures(T::try_from_json_value, (v,), converted));
                }
                Some(converted)
            },
        }
    }
}

} // verus!
