//! The claims object of a token, as the JSON library holds it.
//!
//! A payload is a `serde_json` object. Verified code fills and reads it key by
//! key through the wrappers below; its contents are modelled as a map from
//! key to [`Entry`].

use vstd::prelude::*;

verus! {

/// `serde_json::Value`, carried through as an opaque value.
#[verifier::external_type_specification]
#[verifier::external_body]
pub struct ExJsonValue(serde_json::Value);

/// `serde_json::Map`, the JSON object that holds a token's claims.
#[verifier::external_type_specification]
#[verifier::external_body]
#[verifier::reject_recursive_types(K)]
#[verifier::reject_recursive_types(V)]
pub struct ExJsonMap<K, V>(serde_json::Map<K, V>);

/// The JSON object that holds a token's claims.
pub type JsonObject = serde_json::Map<String, serde_json::Value>;

/// What one member of a JSON object holds, as far as the claims need it.
pub enum Entry {
    /// A number that is a non-negative integer below 2^64.
    Number(u64),
    /// A string.
    Text(Seq<char>),
    /// Anything else: a negative or fractional number, a boolean, null, an
    /// array or an object.
    Other,
}

/// The members of a JSON object, by key.
pub uninterp spec fn object_entries(object: JsonObject) -> Map<Seq<char>, Entry>;

/// The number under `key`, if the member is there and is such a number.
pub open spec fn number_at(entries: Map<Seq<char>, Entry>, key: Seq<char>) -> Option<u64> {
    if entries.contains_key(key) {
        match entries[key] {
            Entry::Number(n) => Some(n),
            _ => None,
        }
    } else {
        None
    }
}

/// The string under `key`, if the member is there and is a string.
pub open spec fn text_at(entries: Map<Seq<char>, Entry>, key: Seq<char>) -> Option<Seq<char>> {
    if entries.contains_key(key) {
        match entries[key] {
            Entry::Text(s) => Some(s),
            _ => None,
        }
    } else {
        None
    }
}

/// `serde_json::Map::new`: an object without members.
#[verifier::external_body]
pub(crate) fn empty_object() -> (made: JsonObject)
    ensures
        object_entries(made) == (Map::<Seq<char>, Entry>::empty()),
{
    serde_json::Map::new()
}

/// `serde_json::Map::insert` with a number made by `Value::from`: afterwards
/// `key` holds the number, whatever it held before; the other members stay.
#[verifier::external_body]
pub(crate) fn put_number(
    object: &mut JsonObject,
    key: &str,
    number: u64,
)
    ensures
        object_entries(*final(object)) == object_entries(*old(object)).insert(
            key@,
            Entry::Number(number),
        ),
{
    object.insert(key.to_string(), serde_json::Value::from(number));
}

/// `serde_json::Map::insert` with a string made by `Value::from`: afterwards
/// `key` holds the string, whatever it held before; the other members stay.
#[verifier::external_body]
pub(crate) fn put_text(
    object: &mut JsonObject,
    key: &str,
    text: &str,
)
    ensures
        object_entries(*final(object)) == object_entries(*old(object)).insert(
            key@,
            Entry::Text(text@),
        ),
{
    object.insert(key.to_string(), serde_json::Value::from(text));
}

/// `serde_json::Map::get` followed by `Value::as_u64`: the member under `key`
/// as a number, `None` where there is no such member or it is no
/// non-negative integer below 2^64.
#[verifier::external_body]
pub(crate) fn get_number(object: &JsonObject, key: &str) -> (number:
    Option<u64>)
    ensures
        number == number_at(object_entries(*object), key@),
{
    object.get(key).and_then(|member| member.as_u64())
}

/// `serde_json::Map::get` followed by `Value::as_str`: a copy of the string
/// under `key`, `None` where there is no such member or it is no string.
#[verifier::external_body]
pub(crate) fn get_text(object: &JsonObject, key: &str) -> (text:
    Option<String>)
    ensures
        text is Some == text_at(object_entries(*object), key@) is Some,
        text matches Some(s) ==> text_at(object_entries(*object), key@) == Some(s@),
{
    object.get(key).and_then(|member| member.as_str()).map(|s| s.to_string())
}

} // verus!
