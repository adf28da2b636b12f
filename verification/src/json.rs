//! JSON values of `serde_json`, and what the library relies on when it builds them.
use serde_json::Value;
use vstd::prelude::*;

verus! {

/// `serde_json::Value`, carried through as it is.
#[verifier::external_type_specification]
#[verifier::external_body]
pub struct ExValue(serde_json::Value);

/// `serde_json::Map`, the fields of a JSON object.
#[verifier::external_type_specification]
#[verifier::external_body]
#[verifier::reject_recursive_types(K)]
#[verifier::reject_recursive_types(V)]
pub struct ExObject<K, V>(serde_json::Map<K, V>);

/// The JSON document that a value stands for.
pub enum Json {
    Null,
    Bool(bool),
    /// A number, written as an integer.
    Integer(int),
    /// A number of any other notation, by that notation.
    Number(Seq<char>),
    Text(Seq<char>),
    List(Seq<Json>),
    Object(Map<Seq<char>, Json>),
}

/// The document that a `serde_json::Value` holds.
pub uninterp spec fn json(value: Value) -> Json;

/// The fields that a `serde_json::Map` holds.
pub uninterp spec fn fields(object: serde_json::Map<String, Value>) -> Map<Seq<char>, Json>;

/// `Value::from` of a `String`: the JSON string with the same characters.
#[verifier::external_body]
pub(crate) fn text_value(text: String) -> (value: Value)
    ensures
        json(value) == Json::Text(text@),
{
    Value::from(text)
}

/// `Value::from` of a `u64`: the JSON number of the same value.
#[verifier::external_body]
pub(crate) fn integer_value(number: u64) -> (value: Value)
    ensures
        json(value) == Json::Integer(number as int),
{
    Value::from(number)
}

/// `Value::from` of a `Vec<Value>`: the JSON array of the same elements, in the same order.
#[verifier::external_body]
pub(crate) fn list_value(elements: Vec<Value>) -> (value: Value)
    ensures
        json(value) == Json::List(Seq::new(elements@.len(), |i: int| json(elements@[i]))),
{
    Value::from(elements)
}

/// `Map::new`: an object without fields.
#[verifier::external_body]
pub(crate) fn empty_object() -> (object: serde_json::Map<String, Value>)
    ensures
        fields(object) == (Map::<Seq<char>, Json>::empty()),
{
    serde_json::Map::new()
}

/// `Map::insert`: sets the field of that key, whether it was there or not, and no other.
#[verifier::external_body]
pub(crate) fn set_field(
    object: &mut serde_json::Map<String, Value>,
    key: String,
    value: Value,
)
    ensures
        fields(*final(object)) == fields(*old(object)).insert(key@, json(value)),
{
    object.insert(key, value);
}

/// `Value::from` of a `Map<String, Value>`: the JSON object with the same fields.
#[verifier::external_body]
pub(crate) fn object_value(object: serde_json::Map<String, Value>) -> (value: Value)
    ensures
        json(value) == Json::Object(fields(object)),
{
    Value::from(object)
}

} // verus!
