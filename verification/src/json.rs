//! JSON values, as `serde_json` holds them.
//!
//! A [`serde_json::Value`] is opaque to the verifier. Three functions name what one
//! holds: the members of an object, the items of an array and the text of a string.
//! The functions below read a value through `serde_json` and say what they return
//! over these names.
use vstd::prelude::*;

verus! {

/// Declares `serde_json::Value`, with nothing said of what is inside.
#[verifier::external_type_specification]
#[verifier::external_body]
pub struct ExValue(serde_json::Value);

/// The members of an object, by key. A value that is no object has none.
pub uninterp spec fn json_members(value: serde_json::Value) -> Map<Seq<char>, serde_json::Value>;

/// The items of an array, in order. A value that is no array has none.
pub uninterp spec fn json_items(value: serde_json::Value) -> Seq<serde_json::Value>;

/// The text of a string. A value that is no string has none.
pub uninterp spec fn json_text(value: serde_json::Value) -> Option<Seq<char>>;

/// What `==` of `serde_json` answers on two values.
pub uninterp spec fn json_equal(left: serde_json::Value, right: serde_json::Value) -> bool;

/// Two values are the same where they are one value, or where `==` of `serde_json` says
/// so.
pub open spec fn json_same(left: serde_json::Value, right: serde_json::Value) -> bool {
    left == right || json_equal(left, right)
}

/// Calls `serde_json::Value::get` with a string. It returns the member of that key
/// where the value is an object that has one, and nothing otherwise.
#[verifier::external_body]
pub(crate) fn member<'a>(value: &'a serde_json::Value, key: &str) -> (found: Option<&'a serde_json::Value>)
    ensures
        found is Some <==> json_members(*value).contains_key(key@),
        found matches Some(inner) ==> *inner == json_members(*value)[key@],
{
    value.get(key)
}

/// Calls `serde_json::Value::get` with a number. It returns the item at that position
/// where the value is an array that is long enough, and nothing otherwise.
#[verifier::external_body]
pub(crate) fn item<'a>(value: &'a serde_json::Value, index: usize) -> (found: Option<&'a serde_json::Value>)
    ensures
        found is Some <==> index < json_items(*value).len(),
        found matches Some(inner) ==> *inner == json_items(*value)[index as int],
{
    value.get(index)
}

/// Calls `serde_json::Value::as_str`. It returns the text of a string, and nothing for
/// any other value.
#[verifier::external_body]
pub(crate) fn text<'a>(value: &'a serde_json::Value) -> (found: Option<&'a str>)
    ensures
        found is Some <==> json_text(*value) is Some,
        found matches Some(inner) ==> Some(inner@) == json_text(*value),
{
    value.as_str()
}

/// Calls `==` on two `serde_json::Value`s. The answer depends on the two values alone,
/// and a value is equal to itself: the numbers that a value can hold are all finite.
#[verifier::external_body]
pub(crate) fn equal(left: &serde_json::Value, right: &serde_json::Value) -> (same: bool)
    ensures
        same == json_equal(*left, *right),
        *left == *right ==> same,
{
    left == right
}

/// Calls `serde_json::Value::clone`. The copy is the same value.
#[verifier::external_body]
pub(crate) fn copy(value: &serde_json::Value) -> (copied: serde_json::Value)
    ensures
        copied == *value,
{
    value.clone()
}

} // verus!
