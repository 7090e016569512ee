//! Trusted gateway to the JSON facility.
//!
//! A parsed document is carried as an opaque `serde_json::Value`. The document
//! a text parses to is named (`json_doc`), and what a document holds is named
//! per accessor (`json_member`, `json_text`, ...); every accessor wrapper is
//! pinned to its name, so the verified request reader's results are functions
//! of the input text alone.

use vstd::prelude::*;

verus! {

#[verifier::external_type_specification]
#[verifier::external_body]
pub struct ExValue(serde_json::Value);

/// The parse outcome of JSON text: the document when the text is one
/// well-formed JSON document, the parser's message when it is not.
pub uninterp spec fn json_doc(s: Seq<char>) -> Result<serde_json::Value, Seq<char>>;

/// Relies on `serde_json::from_str::<Value>`: the document read from the
/// text, or the parser's message; both are functions of the text alone.
#[verifier::external_body]
pub(crate) fn json_parse(s: &str) -> (r: Result<serde_json::Value, String>)
    ensures
        r is Ok <==> json_doc(s@) is Ok,
        r is Ok ==> json_doc(s@)->Ok_0 == r->Ok_0,
        r is Err ==> json_doc(s@)->Err_0 == r->Err_0@,
{
    serde_json::from_str::<serde_json::Value>(s).map_err(|e| format!("{}", e))
}

/// Whether a value is a JSON object.
pub uninterp spec fn json_object(v: serde_json::Value) -> bool;

/// Relies on `Value::is_object`.
#[verifier::external_body]
pub(crate) fn json_is_object(v: &serde_json::Value) -> (r: bool)
    ensures
        r == json_object(*v),
{
    v.is_object()
}

/// Whether a value is the JSON null.
pub uninterp spec fn json_null(v: serde_json::Value) -> bool;

/// Relies on `Value::is_null`.
#[verifier::external_body]
pub(crate) fn json_is_null(v: &serde_json::Value) -> (r: bool)
    ensures
        r == json_null(*v),
{
    v.is_null()
}

/// The member a JSON object holds under a name; nothing when the value is not
/// an object or has no such member.
pub uninterp spec fn json_member(v: serde_json::Value, name: Seq<char>) -> Option<
    serde_json::Value,
>;

/// Relies on `Value::get` with a string index.
#[verifier::external_body]
pub(crate) fn json_get<'a>(v: &'a serde_json::Value, name: &str) -> (r: Option<
    &'a serde_json::Value,
>)
    ensures
        r is Some <==> json_member(*v, name@) is Some,
        r is Some ==> json_member(*v, name@)->Some_0 == *r->Some_0,
{
    v.get(name)
}

/// The text of a JSON string.
pub uninterp spec fn json_text(v: serde_json::Value) -> Option<Seq<char>>;

/// Relies on `Value::as_str`: the text of a JSON string, copied out.
#[verifier::external_body]
pub(crate) fn json_as_string(v: &serde_json::Value) -> (r: Option<String>)
    ensures
        r is Some <==> json_text(*v) is Some,
        r is Some ==> json_text(*v)->Some_0 == r->Some_0@,
{
    v.as_str().map(|s| s.to_owned())
}

/// A JSON number as a signed 64-bit integer, when exactly representable.
pub uninterp spec fn json_int(v: serde_json::Value) -> Option<i64>;

/// Relies on `Value::as_i64`.
#[verifier::external_body]
pub(crate) fn json_as_i64(v: &serde_json::Value) -> (r: Option<i64>)
    ensures
        r == json_int(*v),
{
    v.as_i64()
}

/// A JSON number as an unsigned 64-bit integer, when exactly representable.
pub uninterp spec fn json_uint(v: serde_json::Value) -> Option<u64>;

/// Relies on `Value::as_u64`.
#[verifier::external_body]
pub(crate) fn json_as_u64(v: &serde_json::Value) -> (r: Option<u64>)
    ensures
        r == json_uint(*v),
{
    v.as_u64()
}

/// A JSON boolean.
pub uninterp spec fn json_truth(v: serde_json::Value) -> Option<bool>;

/// Relies on `Value::as_bool`.
#[verifier::external_body]
pub(crate) fn json_as_bool(v: &serde_json::Value) -> (r: Option<bool>)
    ensures
        r == json_truth(*v),
{
    v.as_bool()
}

/// The members of a JSON object, ascending by key.
pub uninterp spec fn json_entries(v: serde_json::Value) -> Option<
    Seq<(Seq<char>, serde_json::Value)>,
>;

/// Relies on `Value::as_object` and the object's iteration order (ascending
/// by key): the members of a JSON object, each value cloned.
#[verifier::external_body]
pub(crate) fn json_object_entries(v: &serde_json::Value) -> (r: Option<
    Vec<(String, serde_json::Value)>,
>)
    ensures
        r is Some <==> json_entries(*v) is Some,
        r is Some ==> {
            &&& json_entries(*v)->Some_0.len() == r->Some_0@.len()
            &&& forall|i: int|
                0 <= i < r->Some_0@.len() ==> json_entries(*v)->Some_0[i].0 == (
                #[trigger] r->Some_0@[i]).0@ && json_entries(*v)->Some_0[i].1 == r->Some_0@[i].1
        },
{
    v.as_object().map(|m| m.iter().map(|(k, val)| (k.clone(), val.clone())).collect())
}

/// The items of a JSON array.
pub uninterp spec fn json_items(v: serde_json::Value) -> Option<Seq<serde_json::Value>>;

/// Relies on `Value::as_array`: the items of a JSON array, cloned.
#[verifier::external_body]
pub(crate) fn json_array_items(v: &serde_json::Value) -> (r: Option<Vec<serde_json::Value>>)
    ensures
        r is Some <==> json_items(*v) is Some,
        r is Some ==> {
            &&& json_items(*v)->Some_0.len() == r->Some_0@.len()
            &&& forall|i: int|
                0 <= i < r->Some_0@.len() ==> json_items(*v)->Some_0[i] == #[trigger] r->Some_0@[i]
        },
{
    v.as_array().map(|a| a.clone())
}

} // verus!
