//! JSON objects and values of `serde_json`, as the message bodies carry them.
//!
//! A body's fields beyond the reserved ones are kept in `serde_json`'s own map;
//! the library reads and fills it only through the functions below, whose
//! contracts speak of its entries key by key.

use vstd::prelude::*;

verus! {

#[verifier::external_type_specification]
#[verifier::external_body]
#[verifier::reject_recursive_types(K)]
#[verifier::reject_recursive_types(V)]
pub struct ExJsonMap<K, V>(serde_json::Map<K, V>);

#[verifier::external_type_specification]
#[verifier::external_body]
pub struct ExJsonValue(serde_json::Value);

/// The entries of a JSON object, by key.
pub type JsonFields = Map<Seq<char>, serde_json::Value>;

/// The entries of a JSON object map, by key.
pub uninterp spec fn json_fields(m: serde_json::Map<String, serde_json::Value>) -> Map<
    Seq<char>,
    serde_json::Value,
>;

/// The JSON string value `Value::String(s)`.
pub uninterp spec fn json_string_of(s: Seq<char>) -> serde_json::Value;

/// The JSON object value `Value::Object(m)`, by the entries of `m`.
pub uninterp spec fn json_object_of(fields: Map<Seq<char>, serde_json::Value>) -> serde_json::Value;

/// The JSON number value `Value::from(n)` of an unsigned integer.
pub uninterp spec fn json_u64_of(n: u64) -> serde_json::Value;

/// The JSON boolean value `Value::Bool(b)`.
pub uninterp spec fn json_bool_of(b: bool) -> serde_json::Value;

/// What `Value::as_str` gives for a value: the text of a JSON string, else nothing.
pub uninterp spec fn json_as_str_of(v: serde_json::Value) -> Option<Seq<char>>;

/// What `Value::as_bool` gives for a value: the flag of a JSON boolean, else nothing.
pub uninterp spec fn json_as_bool_of(v: serde_json::Value) -> Option<bool>;

/// What `Value::as_i64` gives for a value: a JSON number that is an integer in
/// the range of `i64`, else nothing.
pub uninterp spec fn json_as_i64_of(v: serde_json::Value) -> Option<i64>;

/// `serde_json::Map::new`: an empty map.
#[verifier::external_body]
pub fn json_map_new() -> (m: serde_json::Map<String, serde_json::Value>)
    ensures
        json_fields(m) == JsonFields::empty(),
{
    serde_json::Map::new()
}

/// `serde_json::Map::contains_key`: whether the map has an entry for the key.
#[verifier::external_body]
pub fn json_contains_key(m: &serde_json::Map<String, serde_json::Value>, key: &str) -> (b: bool)
    ensures
        b == json_fields(*m).contains_key(key@),
{
    m.contains_key(key)
}

/// `serde_json::Map::get`: the entry for the key, if there is one.
#[verifier::external_body]
pub fn json_get<'a>(m: &'a serde_json::Map<String, serde_json::Value>, key: &str) -> (r: Option<
    &'a serde_json::Value,
>)
    ensures
        match r {
            Some(v) => json_fields(*m).contains_key(key@) && *v == json_fields(*m)[key@],
            None => !json_fields(*m).contains_key(key@),
        },
{
    m.get(key)
}

/// `serde_json::Map::insert`: sets the entry for the key, replacing any earlier one.
#[verifier::external_body]
pub fn json_insert(m: &mut serde_json::Map<String, serde_json::Value>, key: String, value: serde_json::Value)
    ensures
        json_fields(*final(m)) == json_fields(*old(m)).insert(key@, value),
{
    m.insert(key, value);
}

/// `Clone` of `serde_json::Map`: a map with the same entries.
#[verifier::external_body]
pub fn json_map_clone(m: &serde_json::Map<String, serde_json::Value>) -> (r: serde_json::Map<
    String,
    serde_json::Value,
>)
    ensures
        json_fields(r) == json_fields(*m),
{
    m.clone()
}

/// `Clone` of `serde_json::Value`: an equal value.
#[verifier::external_body]
pub fn json_value_clone(v: &serde_json::Value) -> (r: serde_json::Value)
    ensures
        r == *v,
{
    v.clone()
}

/// `Value::String`: a JSON string, which `as_str` reads back.
#[verifier::external_body]
pub fn json_string(s: String) -> (v: serde_json::Value)
    ensures
        v == json_string_of(s@),
        json_as_str_of(v) == Some(s@),
        json_as_i64_of(v) == None::<i64>,
        json_as_bool_of(v) == None::<bool>,
{
    serde_json::Value::String(s)
}

/// `Value::Object`: a JSON object with the map's entries. Objects are equal
/// exactly when their entries are (`Value`'s equality is derived field by
/// field, and `Map`'s compares entries), so the value gives its entries back.
#[verifier::external_body]
pub fn json_object(m: serde_json::Map<String, serde_json::Value>) -> (v: serde_json::Value)
    ensures
        v == json_object_of(json_fields(m)),
        forall|f: JsonFields| #[trigger] json_object_of(f) == v ==> f == json_fields(m),
{
    serde_json::Value::Object(m)
}

/// Matching `Value::Object(m)`: the map of an object value, whose entries are
/// the only ones that give that value; nothing for other kinds of value.
#[verifier::external_body]
pub fn json_into_object(v: serde_json::Value) -> (r: Option<serde_json::Map<String, serde_json::Value>>)
    ensures
        match r {
            Some(m) => {
                &&& v == json_object_of(json_fields(m))
                &&& forall|f: JsonFields| #[trigger] json_object_of(f) == v ==> f == json_fields(m)
            },
            None => forall|f: JsonFields| v != json_object_of(f),
        },
{
    match v {
        serde_json::Value::Object(m) => Some(m),
        _ => None,
    }
}

/// `Value::from(u64)`: a JSON number, which `as_i64` reads back when it fits.
#[verifier::external_body]
pub fn json_u64(n: u64) -> (v: serde_json::Value)
    ensures
        v == json_u64_of(n),
        json_as_i64_of(v) == (if n <= i64::MAX { Some(n as i64) } else { None::<i64> }),
        json_as_str_of(v) == None::<Seq<char>>,
{
    serde_json::Value::from(n)
}

/// `Value::Bool`: a JSON boolean.
#[verifier::external_body]
pub fn json_bool(b: bool) -> (v: serde_json::Value)
    ensures
        v == json_bool_of(b),
        json_as_bool_of(v) == Some(b),
        json_as_str_of(v) == None::<Seq<char>>,
        json_as_i64_of(v) == None::<i64>,
{
    serde_json::Value::Bool(b)
}

/// `Value::as_str`: the text of a JSON string.
#[verifier::external_body]
pub fn json_as_str(v: &serde_json::Value) -> (r: Option<&str>)
    ensures
        match r {
            Some(s) => json_as_str_of(*v) == Some(s@),
            None => json_as_str_of(*v) == None::<Seq<char>>,
        },
{
    v.as_str()
}

/// `Value::as_bool`: the flag of a JSON boolean.
#[verifier::external_body]
pub fn json_as_bool(v: &serde_json::Value) -> (r: Option<bool>)
    ensures
        r == json_as_bool_of(*v),
{
    v.as_bool()
}

/// `Value::as_i64`: a JSON integer that fits in `i64`.
#[verifier::external_body]
pub fn json_as_i64(v: &serde_json::Value) -> (r: Option<i64>)
    ensures
        r == json_as_i64_of(*v),
{
    v.as_i64()
}

} // verus!
