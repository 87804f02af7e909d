//! JSON documents of `serde_json`, as far as the gateway reads and builds
//! them.
//!
//! A `serde_json::Value` is opaque to the verifier. What a document holds is
//! named by [`json_model`]; the functions below are the only ones that touch
//! a document, and their contracts are believed, not proved.

use vstd::prelude::*;

verus! {

/// `serde_json::Value`, a JSON document. Nothing is known of what is inside
/// one but what [`json_model`] names.
#[verifier::external_type_specification]
#[verifier::external_body]
pub struct ExJsonValue(serde_json::Value);

/// What a JSON document holds.
pub enum JsonModel {
    Null,
    Bool(bool),
    /// A number held as a whole number.
    Integer(int),
    /// Any other number, by its text.
    Real(Seq<char>),
    String(Seq<char>),
    Array(Seq<JsonModel>),
    /// An object: its members by key.
    Object(Map<Seq<char>, JsonModel>),
}

/// What the document `value` holds.
pub uninterp spec fn json_model(value: serde_json::Value) -> JsonModel;

/// The document is an object with a member under `key`.
pub open spec fn has_member(document: JsonModel, key: Seq<char>) -> bool {
    document matches JsonModel::Object(members) && members.dom().contains(key)
}

/// The document after a member is put under `key`: an object gets the
/// member, in place of the one it had under that key if it had one; anything
/// else stays as it is.
pub open spec fn with_member(document: JsonModel, key: Seq<char>, member: JsonModel) -> JsonModel {
    match document {
        JsonModel::Object(members) => JsonModel::Object(members.insert(key, member)),
        _ => document,
    }
}

/// `Clone::clone` of a document: the copy holds what the document holds.
pub assume_specification[ <serde_json::Value as Clone>::clone ](
    value: &serde_json::Value,
) -> (copy: serde_json::Value)
    ensures
        json_model(copy) == json_model(*value),
;

/// `serde_json::Value::get` with a string key, asked whether it found
/// something: it finds the member of an object under that key, and nothing in
/// a document that is no object.
#[verifier::external_body]
pub(crate) fn json_has_member(value: &serde_json::Value, key: &str) -> (found: bool)
    ensures
        found == has_member(json_model(*value), key@),
{
    value.get(key).is_some()
}

/// `serde_json::Map::insert` on the members of an object: the member is put
/// under the key, replacing what was there. A document that is no object is
/// left alone. The result says whether the document was an object.
#[verifier::external_body]
pub(crate) fn json_insert_member(
    value: &mut serde_json::Value,
    key: &str,
    member: serde_json::Value,
) -> (is_object: bool)
    ensures
        is_object == (json_model(*old(value)) is Object),
        json_model(*final(value)) == with_member(json_model(*old(value)), key@, json_model(member)),
{
    match value {
        serde_json::Value::Object(members) => {
            members.insert(key.to_owned(), member);
            true
        },
        _ => false,
    }
}

/// `serde_json::Map::new`, as a document: an object without members.
#[verifier::external_body]
pub(crate) fn json_empty_object() -> (value: serde_json::Value)
    ensures
        json_model(value) == JsonModel::Object(Map::empty()),
{
    serde_json::Value::Object(serde_json::Map::new())
}

/// `serde_json::Value::from` on a string slice: the string document with
/// that text.
#[verifier::external_body]
pub(crate) fn json_string(text: &str) -> (value: serde_json::Value)
    ensures
        json_model(value) == JsonModel::String(text@),
{
    serde_json::Value::from(text)
}

/// `serde_json::Value::from` on a `u64`: the number document with that
/// value.
#[verifier::external_body]
pub(crate) fn json_unsigned(number: u64) -> (value: serde_json::Value)
    ensures
        json_model(value) == JsonModel::Integer(number as int),
{
    serde_json::Value::from(number)
}

} // verus!
