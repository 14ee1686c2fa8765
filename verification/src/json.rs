//! JSON values of `serde_json`, their mathematical model, and the calls into
//! `serde_json` that the rest of the crate is built on.

use vstd::prelude::*;
use serde_json::Value;

verus! {

/// What a JSON value is, as mathematics.
///
/// An integer stands for itself. A number that `serde_json` does not hold as
/// an integer is a `Fraction`, of which this crate states nothing.
pub enum JsonModel {
    Null,
    Bool(bool),
    Integer(int),
    Fraction(Seq<char>),
    Str(Seq<char>),
    Array(Seq<JsonModel>),
    Object(Map<Seq<char>, JsonModel>),
}

impl JsonModel {
    /// The member `key` of an object; `None` for a missing key and for
    /// anything that is not an object.
    pub open spec fn get(self, key: Seq<char>) -> Option<JsonModel> {
        match self {
            JsonModel::Object(m) => if m.contains_key(key) {
                Some(m[key])
            } else {
                None
            },
            _ => None,
        }
    }

    /// The characters of a JSON string; `None` for any other value.
    pub open spec fn text(self) -> Option<Seq<char>> {
        match self {
            JsonModel::Str(s) => Some(s),
            _ => None,
        }
    }

    /// The value of a JSON boolean; `None` for any other value.
    pub open spec fn flag(self) -> Option<bool> {
        match self {
            JsonModel::Bool(b) => Some(b),
            _ => None,
        }
    }

    /// The member `key` where it is a string.
    pub open spec fn text_at(self, key: Seq<char>) -> Option<Seq<char>> {
        match self.get(key) {
            Some(v) => v.text(),
            None => None,
        }
    }

    /// The member `key` where it is a boolean.
    pub open spec fn flag_at(self, key: Seq<char>) -> Option<bool> {
        match self.get(key) {
            Some(v) => v.flag(),
            None => None,
        }
    }

    /// The members of an object that has none.
    pub open spec fn no_members() -> Map<Seq<char>, JsonModel> {
        Map::empty()
    }

    /// The member `key`, or JSON `null` where there is none.
    pub open spec fn get_or_null(self, key: Seq<char>) -> JsonModel {
        match self.get(key) {
            Some(v) => v,
            None => JsonModel::Null,
        }
    }
}

/// `serde_json::Value`, opaque to the verifier.
#[verifier::external_type_specification]
#[verifier::external_body]
pub struct ExValue(serde_json::Value);

/// `serde_json::Map`, opaque to the verifier.
#[verifier::external_type_specification]
#[verifier::external_body]
#[verifier::reject_recursive_types(K)]
#[verifier::reject_recursive_types(V)]
pub struct ExMap<K, V>(serde_json::Map<K, V>);

/// `serde_json::Error`, opaque to the verifier.
#[verifier::external_type_specification]
#[verifier::external_body]
pub struct ExError(serde_json::Error);

/// The JSON value that a `serde_json::Value` holds: `null`, a boolean, a
/// number, a string, the items of an array in their order, or the members of
/// an object by key.
pub uninterp spec fn json_model(v: Value) -> JsonModel;

/// The members that a `serde_json::Map` holds, by key.
pub uninterp spec fn map_entries(m: serde_json::Map<String, Value>) -> Map<Seq<char>, JsonModel>;

/// The value that `serde_json::from_slice` reads from `bytes`; `None` where
/// it reports an error.
pub uninterp spec fn json_parsed(bytes: Seq<u8>) -> Option<JsonModel>;

/// The text that `serde_json::to_string` writes for a value; `None` where it
/// reports an error. `serde_json` keeps the members of an object sorted by
/// key, so the text depends on the value alone.
pub uninterp spec fn json_text(v: JsonModel) -> Option<Seq<char>>;

/// Calls `serde_json::from_slice`. The result is named, not described:
/// `json_parsed` stands for what the parser makes of the bytes.
#[verifier::external_body]
pub(crate) fn parse(bytes: &[u8]) -> (r: Result<Value, serde_json::Error>)
    ensures
        match r {
            Ok(v) => json_parsed(bytes@) == Some(json_model(v)),
            Err(_) => json_parsed(bytes@) is None,
        },
{
    serde_json::from_slice::<Value>(bytes)
}

/// Calls `serde_json::to_string`. The result is named, not described:
/// `json_text` stands for the compact text of the value.
#[verifier::external_body]
pub(crate) fn render(v: &Value) -> (r: Result<String, serde_json::Error>)
    ensures
        match r {
            Ok(s) => json_text(json_model(*v)) == Some(s@),
            Err(_) => json_text(json_model(*v)) is None,
        },
{
    serde_json::to_string(v)
}

/// Calls `Value::get` with a string key: the member of an object under that
/// key, and `None` for a missing key or a value that is no object.
#[verifier::external_body]
pub(crate) fn member<'a>(v: &'a Value, key: &str) -> (r: Option<&'a Value>)
    ensures
        match r {
            Some(x) => json_model(*v).get(key@) == Some(json_model(*x)),
            None => json_model(*v).get(key@) is None,
        },
{
    v.get(key)
}

/// Calls `Value::as_str`: the characters of a JSON string, `None` for any
/// other value.
#[verifier::external_body]
pub(crate) fn as_text<'a>(v: &'a Value) -> (r: Option<&'a str>)
    ensures
        match r {
            Some(s) => json_model(*v).text() == Some(s@),
            None => json_model(*v).text() is None,
        },
{
    v.as_str()
}

/// Calls `Value::as_bool`: the value of a JSON boolean, `None` for any other
/// value.
#[verifier::external_body]
pub(crate) fn as_flag(v: &Value) -> (r: Option<bool>)
    ensures
        r == json_model(*v).flag(),
{
    v.as_bool()
}

/// Calls `Value::clone`: the copy holds the same JSON value.
#[verifier::external_body]
pub(crate) fn duplicate(v: &Value) -> (r: Value)
    ensures
        json_model(r) == json_model(*v),
{
    v.clone()
}

/// Makes `Value::Null`.
#[verifier::external_body]
pub(crate) fn null_value() -> (r: Value)
    ensures
        json_model(r) == JsonModel::Null,
{
    Value::Null
}

/// Makes a `Value::Bool`.
#[verifier::external_body]
pub(crate) fn flag_value(b: bool) -> (r: Value)
    ensures
        json_model(r) == JsonModel::Bool(b),
{
    Value::Bool(b)
}

/// Makes a `Value::String` with the characters of `s`.
#[verifier::external_body]
pub(crate) fn text_value(s: &str) -> (r: Value)
    ensures
        json_model(r) == JsonModel::Str(s@),
{
    Value::String(s.to_string())
}

/// Calls `Value::from` on a `usize`: the JSON integer of that value.
#[verifier::external_body]
pub(crate) fn count_value(n: usize) -> (r: Value)
    ensures
        json_model(r) == JsonModel::Integer(n as int),
{
    Value::from(n)
}

/// Makes a `Value::Array` of the items, in their order.
#[verifier::external_body]
pub(crate) fn array_value(items: Vec<Value>) -> (r: Value)
    ensures
        json_model(r) == JsonModel::Array(items@.map_values(|v: Value| json_model(v))),
{
    Value::Array(items)
}

/// Makes a `Value::Object` of the members of `m`.
#[verifier::external_body]
pub(crate) fn object_value(m: serde_json::Map<String, Value>) -> (r: Value)
    ensures
        json_model(r) == JsonModel::Object(map_entries(m)),
{
    Value::Object(m)
}

/// Calls `Map::new`: a map without members.
#[verifier::external_body]
pub(crate) fn no_members() -> (r: serde_json::Map<String, Value>)
    ensures
        map_entries(r) == JsonModel::no_members(),
{
    serde_json::Map::new()
}

/// Calls `Map::insert`: in the map handed back `key` leads to `v`, whether or
/// not the map held the key before, and every other member is as it was.
#[verifier::external_body]
pub(crate) fn with_member(m: serde_json::Map<String, Value>, key: &str, v: Value) -> (r:
    serde_json::Map<String, Value>)
    ensures
        map_entries(r) == map_entries(m).insert(key@, json_model(v)),
{
    let mut m = m;
    m.insert(key.to_string(), v);
    m
}

} // verus!
