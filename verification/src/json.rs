//! JSON documents, as `serde_json` holds them, and what they stand for.

use vstd::prelude::*;

verus! {

/// A JSON document as a mathematical value.
pub enum Json {
    /// `null`
    Null,
    /// `true` or `false`
    Bool(bool),
    /// A string.
    Text(Seq<char>),
    /// An object: its members by key.
    Object(Map<Seq<char>, Json>),
    /// A number or an array, as `serde_json` holds it: this crate builds
    /// neither and passes both on untouched.
    Other(serde_json::Value),
}

/// `serde_json::Value`, any JSON document.
#[verifier::external_type_specification]
#[verifier::external_body]
pub struct ExValue(serde_json::Value);

/// `serde_json::Map`, the members of a JSON object.
#[verifier::external_type_specification]
#[verifier::external_body]
#[verifier::reject_recursive_types(K)]
#[verifier::reject_recursive_types(V)]
pub struct ExMap<K, V>(serde_json::Map<K, V>);

/// A JSON object under construction.
pub type JsonObject = serde_json::Map<String, serde_json::Value>;

/// The document that a `serde_json::Value` holds.
pub uninterp spec fn json_of(value: serde_json::Value) -> Json;

/// The members of a `serde_json::Map`, each key with the document under it.
pub uninterp spec fn members_of(object: JsonObject) -> Map<Seq<char>, Json>;

/// `Value::from(&str)`: a JSON string with the characters of `text`.
#[verifier::external_body]
pub(crate) fn json_text(text: &str) -> (value: serde_json::Value)
    ensures
        json_of(value) == Json::Text(text@),
{
    serde_json::Value::from(text)
}

/// `Value::from(Option<bool>)`: `null` for `None`, else the JSON boolean.
#[verifier::external_body]
pub(crate) fn json_flag(flag: Option<bool>) -> (value: serde_json::Value)
    ensures
        flag is None ==> json_of(value) == Json::Null,
        flag is Some ==> json_of(value) == Json::Bool(flag.unwrap()),
{
    serde_json::Value::from(flag)
}

/// `Map::new`: an object without members.
#[verifier::external_body]
pub(crate) fn object_new() -> (object: JsonObject)
    ensures
        members_of(object) == (Map::<Seq<char>, Json>::empty()),
{
    serde_json::Map::new()
}

/// `Map::insert`: puts `value` under `key`, in place of what was there, and leaves the
/// other members alone.
#[verifier::external_body]
pub(crate) fn object_insert(object: &mut JsonObject, key: &str, value: serde_json::Value)
    ensures
        members_of(*final(object)) == members_of(*old(object)).insert(key@, json_of(value)),
{
    object.insert(key.to_owned(), value);
}

/// `Value::from(Map)`: the object with these members, as a document.
#[verifier::external_body]
pub(crate) fn json_object(object: JsonObject) -> (value: serde_json::Value)
    ensures
        json_of(value) == Json::Object(members_of(object)),
{
    serde_json::Value::from(object)
}

} // verus!
