//! Trusted surface over `serde_json`'s value tree, with a mathematical
//! model of the documents it parses.
//!
//! The library reads several JSON payloads whose shape it does not control:
//! model judgments, tracker listings, API responses, and its own persisted
//! record. `serde_json` does the parsing; a parsed value is opaque here, but
//! what it holds is named: `json_of` maps a value to the `JsonData` it
//! denotes, and `json_doc` names what parsing a text yields, so that every
//! reader built on these calls can state its success case exactly.

use vstd::prelude::*;

verus! {

/// A JSON document. A number carries its value as a signed integer where it
/// is one in range, and its decimal text as `serde_json` renders it; an
/// object maps member names to members.
pub ghost enum JsonData {
    Null,
    Bool(bool),
    Number(Option<i64>, Seq<char>),
    Str(Seq<char>),
    Arr(Seq<JsonData>),
    Obj(Map<Seq<char>, JsonData>),
}

/// The member of `d` at `key`, where `d` is an object that has one.
pub open spec fn obj_member(d: JsonData, key: Seq<char>) -> Option<JsonData> {
    match d {
        JsonData::Obj(o) => if o.contains_key(key) {
            Some(o[key])
        } else {
            None
        },
        _ => None,
    }
}

/// An optional string member denotes `v`: absent and null are both absent,
/// a string is that string, and any other shape denotes nothing.
pub open spec fn opt_string_member_matches(m: Option<JsonData>, v: Option<String>) -> bool {
    match m {
        None => v is None,
        Some(JsonData::Null) => v is None,
        Some(JsonData::Str(s)) => (v matches Some(x) && x@ == s),
        Some(_) => false,
    }
}

/// An optional string member is well-shaped: absent, null, or a string.
pub open spec fn opt_string_member_ok(m: Option<JsonData>) -> bool {
    match m {
        None => true,
        Some(JsonData::Null) => true,
        Some(JsonData::Str(_)) => true,
        Some(_) => false,
    }
}

#[verifier::external_type_specification]
#[verifier::external_body]
pub struct ExValue(serde_json::Value);

/// What a parsed value holds.
pub uninterp spec fn json_of(v: serde_json::Value) -> JsonData;

/// What `serde_json::from_str::<Value>` yields on a text: the document it
/// denotes, or nothing when it denotes none. The result depends on the text
/// alone.
pub uninterp spec fn json_doc(s: Seq<char>) -> Option<JsonData>;

/// Relies on `serde_json::from_str::<Value>`: parses text as one JSON
/// document, or reports why it is not one.
#[verifier::external_body]
pub fn parse_json(s: &str) -> (r: Result<serde_json::Value, String>)
    ensures
        match r {
            Ok(v) => json_doc(s@) == Some(json_of(v)),
            Err(_) => json_doc(s@) is None,
        },
{
    match serde_json::from_str::<serde_json::Value>(s) {
        Ok(v) => Ok(v),
        Err(e) => Err(e.to_string()),
    }
}

/// Relies on `serde_json::Value::get`: the member at `key`, exactly when
/// this value is an object that has one.
#[verifier::external_body]
pub fn json_get<'a>(v: &'a serde_json::Value, key: &str) -> (r: Option<&'a serde_json::Value>)
    ensures
        match r {
            Some(m) => obj_member(json_of(*v), key@) == Some(json_of(*m)),
            None => obj_member(json_of(*v), key@) is None,
        },
{
    v.get(key)
}

/// Relies on `serde_json::Value::is_object`.
#[verifier::external_body]
pub fn json_is_object(v: &serde_json::Value) -> (r: bool)
    ensures
        r == (json_of(*v) is Obj),
{
    v.is_object()
}

/// Relies on `serde_json::Value::is_null`.
#[verifier::external_body]
pub fn json_is_null(v: &serde_json::Value) -> (r: bool)
    ensures
        r == (json_of(*v) is Null),
{
    v.is_null()
}

/// The string content, exactly when this value is a JSON string.
#[verifier::external_body]
pub fn json_as_string(v: &serde_json::Value) -> (r: Option<String>)
    ensures
        match r {
            Some(s) => json_of(*v) == JsonData::Str(s@),
            None => !(json_of(*v) is Str),
        },
{
    match v {
        serde_json::Value::String(s) => Some(s.clone()),
        _ => None,
    }
}

/// Relies on `serde_json::Value::as_i64`: the value as a signed integer,
/// exactly when it is an integer number in range.
#[verifier::external_body]
pub fn json_as_i64(v: &serde_json::Value) -> (r: Option<i64>)
    ensures
        match r {
            Some(i) => (json_of(*v) matches JsonData::Number(oi, _) && oi == Some(i)),
            None => !(json_of(*v) matches JsonData::Number(oi, _) && oi is Some),
        },
{
    v.as_i64()
}

/// Relies on `serde_json::Value::as_bool`.
#[verifier::external_body]
pub fn json_as_bool(v: &serde_json::Value) -> (r: Option<bool>)
    ensures
        match r {
            Some(b) => json_of(*v) == JsonData::Bool(b),
            None => !(json_of(*v) is Bool),
        },
{
    v.as_bool()
}

/// Relies on `serde_json::Value::as_array`: the elements, exactly when this
/// value is a JSON array.
#[verifier::external_body]
pub fn json_as_array<'a>(v: &'a serde_json::Value) -> (r: Option<&'a Vec<serde_json::Value>>)
    ensures
        match r {
            Some(a) => (json_of(*v) matches JsonData::Arr(items) && items.len() == a@.len()
                && forall|i: int| 0 <= i < a@.len() ==> items[i] == json_of(a@[i])),
            None => !(json_of(*v) is Arr),
        },
{
    v.as_array()
}

/// The decimal text of this value, exactly when it is a JSON number. Relies
/// on `serde_json::Number`'s display form, which re-renders the value.
#[verifier::external_body]
pub fn json_number_text(v: &serde_json::Value) -> (r: Option<String>)
    ensures
        match r {
            Some(t) => (json_of(*v) matches JsonData::Number(_, txt) && txt == t@),
            None => !(json_of(*v) is Number),
        },
{
    match v {
        serde_json::Value::Number(n) => Some(n.to_string()),
        _ => None,
    }
}

} // verus!
