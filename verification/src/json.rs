//! Trusted boundary to `serde_json`: the parsed JSON value is kept opaque,
//! and each accessor the extractor uses is given a contract over an abstract
//! model of the value's contents.

use vstd::prelude::*;

verus! {

/// The abstract contents of a parsed JSON value. Numbers are collapsed to a
/// bare marker: the extractor never reads one.
pub enum JsonModel {
    Null,
    Bool(bool),
    Number,
    Text(Seq<char>),
    List(Seq<JsonModel>),
    Object(Map<Seq<char>, JsonModel>),
}

#[verifier::external_type_specification]
#[verifier::external_body]
pub struct ExJsonValue(serde_json::Value);

#[verifier::external_type_specification]
#[verifier::external_body]
pub struct ExJsonError(serde_json::Error);

/// The contents of a `serde_json::Value`.
pub uninterp spec fn json_model(v: serde_json::Value) -> JsonModel;

/// What `serde_json::from_str::<Value>` yields on the text `s`: `Some`
/// contents exactly when `s` is valid JSON. Parsing depends on the text alone.
pub uninterp spec fn json_of(s: Seq<char>) -> Option<JsonModel>;

/// Relies on `serde_json::from_str::<Value>`: it returns `Ok` exactly on
/// valid JSON text, and the parsed value is a function of the text alone.
#[verifier::external_body]
pub(crate) fn parse_json(s: &str) -> (r: Result<serde_json::Value, serde_json::Error>)
    ensures
        match r {
            Ok(v) => json_of(s@) == Some(json_model(v)),
            Err(_) => json_of(s@) is None,
        },
{
    serde_json::from_str::<serde_json::Value>(s)
}

/// Relies on `serde_json::Value::get` with a string index: `Some` exactly
/// when the value is an object holding that key, returning the mapped value.
#[verifier::external_body]
pub(crate) fn json_get<'a>(v: &'a serde_json::Value, key: &str) -> (r: Option<
    &'a serde_json::Value,
>)
    ensures
        match r {
            Some(c) => json_model(*v) matches JsonModel::Object(m) && m.dom().contains(key@)
                && json_model(*c) == m[key@],
            None => !(json_model(*v) matches JsonModel::Object(m) && m.dom().contains(key@)),
        },
{
    v.get(key)
}

/// Relies on `serde_json::Value::get` with a `usize` index: `Some` exactly
/// when the value is an array with more than `i` elements, returning element `i`.
#[verifier::external_body]
pub(crate) fn json_at<'a>(v: &'a serde_json::Value, i: usize) -> (r: Option<
    &'a serde_json::Value,
>)
    ensures
        match r {
            Some(c) => json_model(*v) matches JsonModel::List(l) && i < l.len() && json_model(*c)
                == l[i as int],
            None => !(json_model(*v) matches JsonModel::List(l) && i < l.len()),
        },
{
    v.get(i)
}

/// Relies on `serde_json::Value::as_str`: `Some` exactly on a JSON string,
/// returning its characters.
#[verifier::external_body]
pub(crate) fn json_str<'a>(v: &'a serde_json::Value) -> (r: Option<&'a str>)
    ensures
        match r {
            Some(s) => json_model(*v) == JsonModel::Text(s@),
            None => !(json_model(*v) is Text),
        },
{
    v.as_str()
}

/// Relies on `serde_json::Value::as_array`: `Some` exactly on a JSON array,
/// returning its elements in order.
#[verifier::external_body]
pub(crate) fn json_items<'a>(v: &'a serde_json::Value) -> (r: Option<&'a Vec<serde_json::Value>>)
    ensures
        match r {
            Some(items) => json_model(*v) matches JsonModel::List(l) && items@.len() == l.len()
                && (forall|i: int| 0 <= i < l.len() ==> json_model(items@[i]) == l[i]),
            None => !(json_model(*v) is List),
        },
{
    v.as_array()
}

} // verus!
