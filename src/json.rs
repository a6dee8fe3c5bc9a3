//! Trusted declarations for the JSON tree of `serde_json`, and the names
//! under which contracts speak of what a tree holds.
use vstd::prelude::*;

verus! {

#[verifier::external_type_specification]
#[verifier::external_body]
pub struct ExJsonValue(serde_json::Value);

#[verifier::external_type_specification]
#[verifier::external_body]
#[verifier::reject_recursive_types(K)]
#[verifier::reject_recursive_types(V)]
pub struct ExJsonMap<K, V>(serde_json::Map<K, V>);

#[verifier::external_type_specification]
#[verifier::external_body]
pub struct ExJsonError(serde_json::Error);

/// A JSON object's map from keys to members.
pub type JsonObject = serde_json::Map<String, serde_json::Value>;

/// The member stored under `key`, when `v` is an object that has one.
pub uninterp spec fn json_member(v: serde_json::Value, key: Seq<char>) -> Option<serde_json::Value>;

/// The elements of `v`, when `v` is an array.
pub uninterp spec fn json_elements(v: serde_json::Value) -> Option<Seq<serde_json::Value>>;

/// The text of `v`, when `v` is a string.
pub uninterp spec fn json_text(v: serde_json::Value) -> Option<Seq<char>>;

/// The number held by `v`, when `v` is a non-negative integer that fits in `u64`.
pub uninterp spec fn json_unsigned(v: serde_json::Value) -> Option<u64>;

/// The entries of an object map, by key.
pub uninterp spec fn json_entries(m: JsonObject) -> Map<Seq<char>, serde_json::Value>;

/// Relies on `serde_json::Value::get` with a string key: the member of an
/// object under that key, `None` for a missing key or a value that is not an
/// object.
#[verifier::external_body]
pub(crate) fn member(v: &serde_json::Value, key: &str) -> (r: Option<serde_json::Value>)
    ensures
        r == json_member(*v, key@),
{
    v.get(key).cloned()
}

/// Relies on `serde_json::Value::as_array`: the elements, in order, when the
/// value is an array.
#[verifier::external_body]
pub(crate) fn elements(v: &serde_json::Value) -> (r: Option<Vec<serde_json::Value>>)
    ensures
        match r {
            Some(items) => json_elements(*v) == Some(items@),
            None => json_elements(*v) is None,
        },
{
    v.as_array().cloned()
}

/// Relies on `serde_json::Value::as_str`: the text when the value is a string.
#[verifier::external_body]
pub(crate) fn text(v: &serde_json::Value) -> (r: Option<String>)
    ensures
        match r {
            Some(s) => json_text(*v) == Some(s@),
            None => json_text(*v) is None,
        },
{
    v.as_str().map(|s| s.to_string())
}

/// Relies on `serde_json::Value::as_u64`: the number when the value is an
/// integer in the range of `u64`.
#[verifier::external_body]
pub(crate) fn unsigned(v: &serde_json::Value) -> (r: Option<u64>)
    ensures
        r == json_unsigned(*v),
{
    v.as_u64()
}

/// Relies on `serde_json::Value::String`: a string value holding `s`.
#[verifier::external_body]
pub(crate) fn string_value(s: String) -> (r: serde_json::Value)
    ensures
        json_text(r) == Some(s@),
{
    serde_json::Value::String(s)
}

/// Relies on `serde_json::Map::new`: an object map without entries.
#[verifier::external_body]
pub(crate) fn empty_object() -> (r: JsonObject)
    ensures
        json_entries(r).dom() == Set::<Seq<char>>::empty(),
{
    serde_json::Map::new()
}

/// Relies on `serde_json::Map::insert`: the key is bound to the value, any
/// earlier binding of it replaced.
#[verifier::external_body]
pub(crate) fn insert_entry(
    m: &mut JsonObject,
    key: String,
    value: serde_json::Value,
)
    ensures
        json_entries(*final(m)) == json_entries(*old(m)).insert(key@, value),
{
    m.insert(key, value);
}

/// Relies on `serde_json::Value::Object` and on `Value::get` reading the map:
/// the object's members are exactly the map's entries.
#[verifier::external_body]
pub(crate) fn object_value(m: JsonObject) -> (r: serde_json::Value)
    ensures
        forall|k: Seq<char>|
            #[trigger] json_member(r, k) == (if json_entries(m).contains_key(k) {
                Some(json_entries(m)[k])
            } else {
                None
            }),
{
    serde_json::Value::Object(m)
}

/// The indented JSON text of a tree.
pub uninterp spec fn json_pretty(v: serde_json::Value) -> Seq<char>;

/// The tree that a JSON text denotes, when the text is well formed.
pub uninterp spec fn json_parsed(s: Seq<char>) -> Option<serde_json::Value>;

/// Relies on `serde_json::to_string_pretty` on a JSON tree: the text depends
/// on the tree alone, and it cannot fail, since a tree's serialization never
/// fails and its object keys are strings.
#[verifier::external_body]
pub(crate) fn to_pretty_text(v: &serde_json::Value) -> (r: Result<String, serde_json::Error>)
    ensures
        r is Ok,
        r matches Ok(s) ==> s@ == json_pretty(*v),
{
    serde_json::to_string_pretty(v)
}

/// Relies on `serde_json::from_str` into a JSON tree: the outcome depends on
/// the text alone, and fails exactly on text that is not JSON.
#[verifier::external_body]
pub(crate) fn parse_text(s: &str) -> (r: Result<serde_json::Value, serde_json::Error>)
    ensures
        match r {
            Ok(v) => json_parsed(s@) == Some(v),
            Err(_) => json_parsed(s@) is None,
        },
{
    serde_json::from_str(s)
}

/// Relies on `serde::de::Error::custom` for `serde_json::Error`: an error
/// that carries the message.
#[verifier::external_body]
pub(crate) fn data_error(msg: &str) -> (r: serde_json::Error) {
    <serde_json::Error as serde::de::Error>::custom(msg)
}

} // verus!
