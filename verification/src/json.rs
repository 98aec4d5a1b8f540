//! A mathematical model of the JSON documents that token payloads are
//! decoded into.
//!
//! The decoder hands back a `serde_json::Value`, which Verus cannot look
//! inside.  `json_of` names the abstract JSON document a value holds, and
//! the trusted accessors below each relate one `serde_json` query to that
//! model, so that everything downstream of the decoder is verified against
//! the model.

use vstd::prelude::*;

verus! {

/// Abstract JSON document: what a `serde_json::Value` holds.
///
/// Numbers are split into the unsigned integers (the only numbers the
/// claims code reads, via `as_u64`) and everything else.
pub enum JsonModel {
    /// JSON `null`.
    Null,
    /// A boolean.
    Bool(bool),
    /// A number that is an unsigned integer fitting in 64 bits.
    UInt(u64),
    /// Any other number (negative or fractional).
    NumOther,
    /// A string.
    Str(Seq<char>),
    /// An array.
    Arr(Seq<JsonModel>),
    /// An object: a map from member name to member value.
    Obj(Map<Seq<char>, JsonModel>),
}

/// Declares `serde_json::Value`, the decoded JSON document type, so that
/// it can stand in signatures; it stays opaque, modeled only by `json_of`.
#[verifier::external_type_specification]
#[verifier::external_body]
pub struct ExJsonValue(serde_json::Value);

/// The abstract JSON document held by a `serde_json::Value`.
pub uninterp spec fn json_of(v: serde_json::Value) -> JsonModel;

/// Relies on `serde_json::Value::get` with a string index: on an object it
/// looks the member up by name, on anything else it returns `None`.
#[verifier::external_body]
pub fn value_get<'a>(v: &'a serde_json::Value, key: &str) -> (r: Option<&'a serde_json::Value>)
    ensures
        match json_of(*v) {
            JsonModel::Obj(m) => {
                &&& (r is Some) == m.contains_key(key@)
                &&& (r matches Some(x) ==> m.contains_key(key@) && json_of(*x) == m[key@])
            },
            _ => r is None,
        },
{
    v.get(key)
}

/// Relies on `serde_json::Value::as_str`: `Some` exactly on strings.
#[verifier::external_body]
pub fn value_as_str<'a>(v: &'a serde_json::Value) -> (r: Option<&'a str>)
    ensures
        (r is Some) == (json_of(*v) is Str),
        r matches Some(s) ==> json_of(*v) == JsonModel::Str(s@),
{
    v.as_str()
}

/// Relies on `serde_json::Value::as_u64`: `Some` exactly on numbers that
/// are unsigned integers representable in 64 bits.
#[verifier::external_body]
pub fn value_as_u64(v: &serde_json::Value) -> (r: Option<u64>)
    ensures
        (r is Some) == (json_of(*v) is UInt),
        r matches Some(n) ==> json_of(*v) == JsonModel::UInt(n),
{
    v.as_u64()
}

/// Relies on `serde_json::Value::as_bool`: `Some` exactly on booleans.
#[verifier::external_body]
pub fn value_as_bool(v: &serde_json::Value) -> (r: Option<bool>)
    ensures
        (r is Some) == (json_of(*v) is Bool),
        r matches Some(b) ==> json_of(*v) == JsonModel::Bool(b),
{
    v.as_bool()
}

/// Relies on `serde_json::Value::is_null`: true exactly on `null`.
#[verifier::external_body]
pub fn value_is_null(v: &serde_json::Value) -> (r: bool)
    ensures
        r == (json_of(*v) is Null),
{
    v.is_null()
}

/// Relies on `serde_json::Value::as_array`: `Some` exactly on arrays, and
/// the elements come back in order.
#[verifier::external_body]
pub fn value_as_array<'a>(v: &'a serde_json::Value) -> (r: Option<&'a Vec<serde_json::Value>>)
    ensures
        (r is Some) == (json_of(*v) is Arr),
        r matches Some(a) ==> {
            let elems = json_of(*v)->Arr_0;
            &&& a@.len() == elems.len()
            &&& forall|i: int| 0 <= i < elems.len() ==> #[trigger] json_of(a@[i]) == elems[i]
        },
{
    v.as_array()
}

} // verus!
