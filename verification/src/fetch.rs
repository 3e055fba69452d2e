//! The fetch boundary: resolving a link's IRI into a fresh JSON tree
//! belongs to an external collaborator. This layer only states how
//! the outcome of such a call is interpreted.

use vstd::prelude::*;

use crate::error::PropertyError;
use crate::json::JsonValue;
use crate::object::ObjectView;
use crate::value::IriView;
use crate::TryFromJsonValue;

verus! {

/// Why a resolve call failed; carried through as `FetchFailed`, never
/// silently swallowed.
#[derive(Debug, Clone, Copy, PartialEq, Eq, Structural)]
pub enum FetchError {
    NotFound,
    Unreachable,
    Protocol,
}

/// The abstract resolve capability: given an IRI, return a parsed
/// JSON tree or an error. Implementations live outside this layer
/// (they do network work), so nothing is promised of the result; the
/// caller owns the returned tree and interprets it with
/// [`object_from_fetched`].
pub trait Fetch {
    fn resolve(&mut self, iri: &IriView<'_>) -> Result<JsonValue, FetchError>;
}

/// Interprets the outcome of a resolve call: a failed fetch is always
/// reported as `FetchFailed`, and a fetched tree stands as an object
/// exactly when it is a mapping.
pub fn object_from_fetched<'a>(fetched: &'a Result<JsonValue, FetchError>) -> (r: Result<
    ObjectView<'a>,
    PropertyError,
>)
    ensures
        fetched is Err <==> (r is Err && r->Err_0 == PropertyError::FetchFailed),
        fetched matches Ok(v) ==> {
            &&& r is Ok <==> v is Mapping
            &&& r is Ok ==> r->Ok_0.json() == v && r->Ok_0.wf()
            &&& !(v is Mapping) ==> r is Err && r->Err_0 == PropertyError::TypeMismatch
        },
{
    match fetched {
        Err(_) => Err(PropertyError::FetchFailed),
        Ok(v) => ObjectView::try_from_json_value(v),
    }
}

} // verus!
