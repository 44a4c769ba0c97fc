//! JSON trees: the mathematical model, and `serde_json::Value` held to it.

use vstd::prelude::*;

verus! {

/// A JSON number as `serde_json` holds it.
pub enum Numeral {
    /// A non-negative integer.
    Natural(u64),
    /// A negative integer.
    Negative(i64),
    /// Any other number, by the bit pattern of its binary64 form.
    Binary64(u64),
}

/// A JSON document as a mathematical tree.
pub enum Json {
    /// `null`.
    Null,
    /// `true` or `false`.
    Bool(bool),
    /// A number.
    Number(Numeral),
    /// A string, by its characters.
    Text(Seq<char>),
    /// An array, by its elements in their order.
    Array(Seq<Json>),
    /// An object, by its members. The order of the members does not count.
    Object(Map<Seq<char>, Json>),
}

/// `serde_json::Value`, a JSON document in memory. What it holds is known
/// to the proofs only as `json_of` tells it.
#[verifier::external_type_specification]
#[verifier::external_body]
pub struct ExValue(serde_json::Value);

/// `serde_json::Error`, why a JSON document could not be read as a value of
/// some type. Nothing is known of what it holds.
#[verifier::external_type_specification]
#[verifier::external_body]
pub struct ExJsonError(serde_json::Error);

/// The tree that a `serde_json::Value` holds.
pub uninterp spec fn json_of(v: serde_json::Value) -> Json;

/// `Clone::clone` of `serde_json::Value`: the copy holds the same tree.
pub assume_specification[ <serde_json::Value as Clone>::clone ](v: &serde_json::Value) -> (r:
    serde_json::Value)
    ensures
        json_of(r) == json_of(*v),
;

/// `Value::Null`.
#[verifier::external_body]
pub(crate) fn null() -> (v: serde_json::Value)
    ensures
        json_of(v) == Json::Null,
{
    serde_json::Value::Null
}

/// `Value::Bool` of `b`.
#[verifier::external_body]
pub(crate) fn boolean(b: bool) -> (v: serde_json::Value)
    ensures
        json_of(v) == Json::Bool(b),
{
    serde_json::Value::Bool(b)
}

/// `Value::String` of `s`.
#[verifier::external_body]
pub(crate) fn text(s: String) -> (v: serde_json::Value)
    ensures
        json_of(v) == Json::Text(s@),
{
    serde_json::Value::String(s)
}

/// `Value::Object` of `serde_json::Map::new()`: the object without members.
#[verifier::external_body]
pub(crate) fn empty_object() -> (v: serde_json::Value)
    ensures
        json_of(v) == Json::Object(Map::empty()),
{
    serde_json::Value::Object(serde_json::Map::new())
}

/// `serde_json::Map::insert` on the map of an object: the member `key` now
/// holds `value`, whether or not it was there before; the others stay.
#[verifier::external_body]
pub(crate) fn set_member(object: &mut serde_json::Value, key: String, value: serde_json::Value)
    requires
        json_of(*old(object)) is Object,
    ensures
        json_of(*final(object)) == Json::Object(
            json_of(*old(object))->Object_0.insert(key@, json_of(value)),
        ),
{
    if let serde_json::Value::Object(members) = object {
        members.insert(key, value);
    }
}

/// `Value::get` with a string index: the member `key` of an object, and
/// `None` where the value is no object or has no such member.
#[verifier::external_body]
pub(crate) fn member<'a>(v: &'a serde_json::Value, key: &str) -> (r: Option<&'a serde_json::Value>)
    ensures
        match r {
            Some(found) => json_of(*v) is Object && json_of(*v)->Object_0.contains_key(key@)
                && json_of(*found) == json_of(*v)->Object_0[key@],
            None => !(json_of(*v) is Object && json_of(*v)->Object_0.contains_key(key@)),
        },
{
    v.get(key)
}

/// `Value::as_str`: the text of a JSON string, and `None` for any other value.
#[verifier::external_body]
pub(crate) fn as_text<'a>(v: &'a serde_json::Value) -> (r: Option<&'a str>)
    ensures
        match r {
            Some(t) => json_of(*v) == Json::Text(t@),
            None => !(json_of(*v) is Text),
        },
{
    v.as_str()
}

/// `Value::is_object`.
#[verifier::external_body]
pub(crate) fn is_object(v: &serde_json::Value) -> (b: bool)
    ensures
        b == (json_of(*v) is Object),
{
    v.is_object()
}

/// `Value::is_null`.
#[verifier::external_body]
pub(crate) fn is_null(v: &serde_json::Value) -> (b: bool)
    ensures
        b == (json_of(*v) is Null),
{
    v.is_null()
}

} // verus!
