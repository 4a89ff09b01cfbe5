//! JSON values of `serde_json`, as far as the handshake builds and writes
//! them.

use serde_json::Value;
use vstd::prelude::*;

verus! {

/// `serde_json::Value`, carried through without a look inside.
#[verifier::external_type_specification]
#[verifier::external_body]
pub struct ExValue(serde_json::Value);

/// `serde_json::Map`, carried through without a look inside.
#[verifier::external_type_specification]
#[verifier::external_body]
#[verifier::reject_recursive_types(K)]
#[verifier::reject_recursive_types(V)]
pub struct ExObject<K, V>(serde_json::Map<K, V>);

/// What a JSON number holds.
pub enum JsonNumber {
    /// A number that is not negative and has no fraction.
    Unsigned(u64),
    /// A negative number without a fraction.
    Negative(i64),
    /// Any other number, by the bits of its binary form.
    Real(u64),
}

/// What a JSON value holds.
pub enum Json {
    Null,
    Bool(bool),
    Number(JsonNumber),
    Text(Seq<char>),
    Array(Seq<Json>),
    Object(Map<Seq<char>, Json>),
}

/// The members of an object that has none.
pub open spec fn no_members() -> Map<Seq<char>, Json> {
    Map::empty()
}

/// What a `serde_json::Value` holds.
pub uninterp spec fn json_of(value: Value) -> Json;

/// The members that a `serde_json::Map` holds, each under its key.
pub uninterp spec fn members_of(object: serde_json::Map<String, Value>) -> Map<Seq<char>, Json>;

/// The text that `serde_json` writes for a value, in its compact form.
pub uninterp spec fn json_text(json: Json) -> Seq<char>;

/// `Value::String`: the JSON string that holds `text`.
#[verifier::external_body]
pub(crate) fn text_value(text: String) -> (value: Value)
    ensures
        json_of(value) == Json::Text(text@),
{
    Value::String(text)
}

/// `Value::from` of a `u64`: the JSON number `number`.
#[verifier::external_body]
pub(crate) fn number_value(number: u64) -> (value: Value)
    ensures
        json_of(value) == Json::Number(JsonNumber::Unsigned(number)),
{
    Value::from(number)
}

/// `serde_json::Map::new`: a map without members.
#[verifier::external_body]
pub(crate) fn empty_object() -> (object: serde_json::Map<String, Value>)
    ensures
        members_of(object) == no_members(),
{
    serde_json::Map::new()
}

/// `serde_json::Map::insert`: afterwards `key` stands for `member`, in place
/// of what it stood for before, and every other key for what it stood for.
#[verifier::external_body]
pub(crate) fn insert_member(
    object: &mut serde_json::Map<String, Value>,
    key: String,
    member: Value,
)
    ensures
        members_of(*final(object)) == members_of(*old(object)).insert(key@, json_of(member)),
{
    object.insert(key, member);
}

/// `Value::Object`: the JSON object that holds the members of `object`.
#[verifier::external_body]
pub(crate) fn object_value(object: serde_json::Map<String, Value>) -> (value: Value)
    ensures
        json_of(value) == Json::Object(members_of(object)),
{
    Value::Object(object)
}

/// The `Display` of a `serde_json::Value`, by `to_string`: the compact JSON
/// text of the value. With the crate's default features an object writes its
/// members in the order of their keys, so the text is a function of what the
/// value holds.
#[verifier::external_body]
pub(crate) fn write_json(value: &Value) -> (text: String)
    ensures
        text@ == json_text(json_of(*value)),
{
    value.to_string()
}

} // verus!
