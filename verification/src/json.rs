//! JSON documents as the library reads them. Parsing is delegated to
//! serde_json behind trusted items; every rule about a document's shape is
//! stated and checked here, over the library's own `JsonValue`.

use vstd::prelude::*;

use crate::attr::{assoc_get, assoc_lookup};

verus! {

/// A parsed JSON document. Nothing in the library reads a number's value, so
/// numbers carry no payload.
#[derive(Debug)]
pub enum JsonValue {
    Null,
    Bool(bool),
    Num,
    Str(String),
    Arr(Vec<JsonValue>),
    Obj(Vec<(String, JsonValue)>),
}

#[verifier::external_type_specification]
#[verifier::external_body]
pub struct ExSerdeJsonValue(serde_json::Value);

/// What `json_parse` returns for a document text: `None` on text serde_json
/// rejects, otherwise the parsed document.
pub uninterp spec fn json_of(s: Seq<char>) -> Option<JsonValue>;

/// Relies on serde_json::Value's public variants and accessors: each variant
/// is carried over one to one; object entries keep their iteration order.
#[verifier::external_body]
fn json_convert(v: &serde_json::Value) -> JsonValue {
    match v {
        serde_json::Value::Null => JsonValue::Null,
        serde_json::Value::Bool(b) => JsonValue::Bool(*b),
        serde_json::Value::Number(_) => JsonValue::Num,
        serde_json::Value::String(s) => JsonValue::Str(s.clone()),
        serde_json::Value::Array(a) => JsonValue::Arr(a.iter().map(json_convert).collect()),
        serde_json::Value::Object(m) => JsonValue::Obj(
            m.iter().map(|(k, x)| (k.clone(), json_convert(x))).collect(),
        ),
    }
}

/// Relies on serde_json::from_str::<serde_json::Value>: whether a text parses,
/// and what it parses to, depend on the text alone.
#[verifier::external_body]
pub(crate) fn json_parse(s: &str) -> (r: Option<JsonValue>)
    ensures
        r == json_of(s@),
{
    match serde_json::from_str::<serde_json::Value>(s) {
        Ok(v) => Some(json_convert(&v)),
        Err(_) => None,
    }
}

/// The entry under key `k`, when the document is an object.
pub open spec fn json_obj_get(v: JsonValue, k: Seq<char>) -> Option<JsonValue> {
    match v {
        JsonValue::Obj(entries) => assoc_get(entries@, k),
        _ => None,
    }
}

/// The string under key `k`, when the document is an object and the entry a
/// string.
pub open spec fn json_str_entry(v: JsonValue, k: Seq<char>) -> Option<Seq<char>> {
    match json_obj_get(v, k) {
        Some(JsonValue::Str(s)) => Some(s@),
        _ => None,
    }
}

/// The boolean under key `k`, when the document is an object and the entry a
/// boolean.
pub open spec fn json_bool_entry(v: JsonValue, k: Seq<char>) -> Option<bool> {
    match json_obj_get(v, k) {
        Some(JsonValue::Bool(b)) => Some(b),
        _ => None,
    }
}

impl JsonValue {
    /// The entry under key `k`, when this document is an object.
    pub fn obj_get(&self, k: &str) -> (r: Option<&JsonValue>)
        ensures
            match r {
                Some(v) => json_obj_get(*self, k@) == Some(*v),
                None => json_obj_get(*self, k@) is None,
            },
    {
        match self {
            JsonValue::Obj(entries) => assoc_lookup(entries, k),
            _ => None,
        }
    }

    /// The string under key `k`, when this document is an object and the
    /// entry a string.
    pub fn str_entry(&self, k: &str) -> (r: Option<&String>)
        ensures
            match r {
                Some(s) => json_str_entry(*self, k@) == Some(s@),
                None => json_str_entry(*self, k@) is None,
            },
    {
        match self.obj_get(k) {
            Some(JsonValue::Str(s)) => Some(s),
            _ => None,
        }
    }

    /// The boolean under key `k`, when this document is an object and the
    /// entry a boolean.
    pub fn bool_entry(&self, k: &str) -> (r: Option<bool>)
        ensures
            match r {
                Some(b) => json_bool_entry(*self, k@) == Some(b),
                None => json_bool_entry(*self, k@) is None,
            },
    {
        match self.obj_get(k) {
            Some(JsonValue::Bool(b)) => Some(*b),
            _ => None,
        }
    }
}

} // verus!
