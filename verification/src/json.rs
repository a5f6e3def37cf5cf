//! A model of the JSON documents the verse provider returns.
//!
//! Response bodies are parsed by serde_json; its values stay opaque here, and
//! `JsonData` is the mathematical tree such a value denotes. Every decoding
//! contract in the crate is stated over that tree.

use vstd::prelude::*;

verus! {

/// The JSON tree a parsed value denotes. Numeric payloads are not modelled:
/// nothing in this crate reads a JSON number.
pub enum JsonData {
    Null,
    Bool(bool),
    Number,
    Str(Seq<char>),
    Arr(Seq<JsonData>),
    Obj(Map<Seq<char>, JsonData>),
}

#[verifier::external_type_specification]
#[verifier::external_body]
pub struct ExValue(serde_json::Value);

#[verifier::external_type_specification]
#[verifier::external_body]
pub struct ExJsonError(serde_json::Error);

/// The document that serde_json reads from a string, when it accepts the
/// string as JSON.
pub uninterp spec fn json_parse(s: Seq<char>) -> Option<JsonData>;

/// The tree that a serde_json value denotes.
pub uninterp spec fn json_view(v: serde_json::Value) -> JsonData;

/// Relies on serde_json::from_str: a string parses exactly when it is a JSON
/// document serde_json accepts, the parsed value denotes that document, and
/// the outcome is a function of the input alone.
#[verifier::external_body]
pub(crate) fn parse_json(s: &str) -> (r: Result<serde_json::Value, serde_json::Error>)
    ensures
        r is Ok <==> json_parse(s@) is Some,
        r is Ok ==> json_view(r->Ok_0) == json_parse(s@)->0,
{
    serde_json::from_str(s)
}

/// Relies on serde_json::Value::get with a string index: the member of an
/// object value under the given key, and nothing for a missing key or for any
/// other kind of value.
#[verifier::external_body]
pub(crate) fn json_get<'a>(v: &'a serde_json::Value, key: &str) -> (r: Option<&'a serde_json::Value>)
    ensures
        match r {
            Some(w) => json_view(*v) is Obj && json_view(*v)->Obj_0.contains_key(key@)
                && json_view(*w) == json_view(*v)->Obj_0[key@],
            None => !(json_view(*v) is Obj && json_view(*v)->Obj_0.contains_key(key@)),
        },
{
    v.get(key)
}

/// Relies on serde_json::Value::as_array: the elements of an array value, in
/// order, and nothing for any other kind of value.
#[verifier::external_body]
pub(crate) fn json_as_array<'a>(v: &'a serde_json::Value) -> (r: Option<&'a Vec<serde_json::Value>>)
    ensures
        r is Some <==> json_view(*v) is Arr,
        r is Some ==> {
            let a = json_view(*v)->Arr_0;
            r->0@.len() == a.len() && forall|i: int|
                0 <= i < a.len() ==> json_view(#[trigger] r->0@[i]) == a[i]
        },
{
    v.as_array()
}

/// Relies on serde_json::Value::as_str: the characters of a string value, and
/// nothing for any other kind of value.
#[verifier::external_body]
pub(crate) fn json_as_str<'a>(v: &'a serde_json::Value) -> (r: Option<&'a str>)
    ensures
        r is Some <==> json_view(*v) is Str,
        r is Some ==> r->0@ == json_view(*v)->Str_0,
{
    v.as_str()
}

/// The member of a JSON object under a key, when the tree is an object that
/// has it.
pub open spec fn spec_member(j: JsonData, key: Seq<char>) -> Option<JsonData> {
    if j is Obj && j->Obj_0.contains_key(key) {
        Some(j->Obj_0[key])
    } else {
        None
    }
}

/// The characters of a JSON string, when the tree is one.
pub open spec fn spec_str_of(j: JsonData) -> Option<Seq<char>> {
    if j is Str {
        Some(j->Str_0)
    } else {
        None
    }
}

/// The characters of the string member of an object under a key, when the
/// tree is an object, has the key, and the member is a string.
pub open spec fn spec_member_str(j: JsonData, key: Seq<char>) -> Option<Seq<char>> {
    match spec_member(j, key) {
        Some(m) => spec_str_of(m),
        None => None,
    }
}

/// An optional string's characters, or the empty sequence when it is absent.
pub open spec fn str_or_empty(o: Option<Seq<char>>) -> Seq<char> {
    match o {
        Some(s) => s,
        None => Seq::empty(),
    }
}

/// Looks a string member up under a key: the member's characters exactly when
/// the value is an object holding a string there.
pub(crate) fn member_str<'a>(v: &'a serde_json::Value, key: &str) -> (r: Option<&'a str>)
    ensures
        match r {
            Some(s) => spec_member_str(json_view(*v), key@) == Some(s@),
            None => spec_member_str(json_view(*v), key@) is None,
        },
{
    match json_get(v, key) {
        Some(m) => json_as_str(m),
        None => None,
    }
}

} // verus!
