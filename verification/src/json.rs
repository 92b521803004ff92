//! JSON values, as the crate `serde_json` holds them.
//!
//! A value of that crate is opaque to the verifier: [`json`] names what it holds, and each
//! function here says of one call into the crate what it does to those contents.

use vstd::prelude::*;

verus! {

/// `serde_json::Value`.
#[verifier::external_type_specification]
#[verifier::external_body]
pub struct ExValue(serde_json::Value);

/// `serde_json::Map`, the members of a JSON object.
#[verifier::external_type_specification]
#[verifier::external_body]
#[verifier::reject_recursive_types(K)]
#[verifier::reject_recursive_types(V)]
pub struct ExMembers<K, V>(serde_json::Map<K, V>);

/// What a JSON value holds. A number is an `Int` where it is held as an integer, and a `Fraction`
/// where it is held as a floating-point number: the double with this bit pattern.
pub enum JsonView {
    Null,
    Bool(bool),
    Int(int),
    Fraction(u64),
    Text(Seq<char>),
    List(Seq<JsonView>),
    Object(Map<Seq<char>, JsonView>),
}

/// The contents of a JSON value.
pub uninterp spec fn json(v: serde_json::Value) -> JsonView;

/// The members of a JSON object, by name.
pub uninterp spec fn members(m: serde_json::Map<String, serde_json::Value>) -> Map<
    Seq<char>,
    JsonView,
>;

/// The member of `v` called `key`, where `v` is an object that has one.
pub open spec fn member(v: JsonView, key: Seq<char>) -> Option<JsonView> {
    match v {
        JsonView::Object(m) => if m.contains_key(key) {
            Some(m[key])
        } else {
            None
        },
        _ => None,
    }
}

/// The item of `v` at `i`, where `v` is a list that is long enough.
pub open spec fn item(v: JsonView, i: int) -> Option<JsonView> {
    match v {
        JsonView::List(s) => if 0 <= i < s.len() {
            Some(s[i])
        } else {
            None
        },
        _ => None,
    }
}

/// The text that `v` is, where it is one.
pub open spec fn as_text(v: JsonView) -> Option<Seq<char>> {
    match v {
        JsonView::Text(s) => Some(s),
        _ => None,
    }
}

/// The unsigned 64-bit integer that `v` is, where it is one.
pub open spec fn as_uint(v: JsonView) -> Option<u64> {
    match v {
        JsonView::Int(n) => if 0 <= n <= u64::MAX {
            Some(n as u64)
        } else {
            None
        },
        _ => None,
    }
}

/// Calls `Value::from` on a string slice: the JSON string with the same characters.
#[verifier::external_body]
pub(crate) fn text_value(text: &str) -> (r: serde_json::Value)
    ensures
        json(r) == JsonView::Text(text@),
{
    serde_json::Value::from(text)
}

/// Calls `Value::from` on an `i64`: the JSON number that holds this integer.
#[verifier::external_body]
pub(crate) fn int_value(n: i64) -> (r: serde_json::Value)
    ensures
        json(r) == JsonView::Int(n as int),
{
    serde_json::Value::from(n)
}

/// Calls `Value::from` on a `u64`: the JSON number that holds this integer.
#[verifier::external_body]
pub(crate) fn uint_value(n: u64) -> (r: serde_json::Value)
    ensures
        json(r) == JsonView::Int(n as int),
{
    serde_json::Value::from(n)
}

/// Calls `Value::from` on a vector of values: the JSON array of these items, in this order.
#[verifier::external_body]
pub(crate) fn list_value(items: Vec<serde_json::Value>) -> (r: serde_json::Value)
    ensures
        json(r) == JsonView::List(items@.map_values(|v: serde_json::Value| json(v))),
{
    serde_json::Value::from(items)
}

/// Calls `Value::from` on the members of an object: the JSON object that has just these.
#[verifier::external_body]
pub(crate) fn object_value(m: serde_json::Map<String, serde_json::Value>) -> (r: serde_json::Value)
    ensures
        json(r) == JsonView::Object(members(m)),
{
    serde_json::Value::from(m)
}

/// Calls `serde_json::Map::new`: no members.
#[verifier::external_body]
pub(crate) fn no_members() -> (r: serde_json::Map<String, serde_json::Value>)
    ensures
        (members(r) == Map::<Seq<char>, JsonView>::empty()),
{
    serde_json::Map::new()
}

/// Calls `serde_json::Map::insert`, and drops what it returns: the member called `key` is set
/// to `value`, the others stay as they are.
#[verifier::external_body]
pub(crate) fn set_member(
    m: &mut serde_json::Map<String, serde_json::Value>,
    key: &str,
    value: serde_json::Value,
)
    ensures
        members(*final(m)) == members(*old(m)).insert(key@, json(value)),
{
    m.insert(key.to_string(), value);
}

/// Calls `Value::get` with a string slice: the member of that name of an object, and nothing for
/// a value that is no object or has no such member.
#[verifier::external_body]
pub(crate) fn get_member<'a>(v: &'a serde_json::Value, key: &str) -> (r: Option<
    &'a serde_json::Value,
>)
    ensures
        match r {
            Some(w) => member(json(*v), key@) == Some(json(*w)),
            None => member(json(*v), key@) is None,
        },
{
    v.get(key)
}

/// Calls `Value::get` with an index: the item at that index of an array, and nothing for a value
/// that is no array or is too short.
#[verifier::external_body]
pub(crate) fn get_item<'a>(v: &'a serde_json::Value, i: usize) -> (r: Option<&'a serde_json::Value>)
    ensures
        match r {
            Some(w) => item(json(*v), i as int) == Some(json(*w)),
            None => item(json(*v), i as int) is None,
        },
{
    v.get(i)
}

/// Calls `Value::as_array` and, on the array that it returns, `Vec::len`: how many items an array
/// has, and nothing for any other value.
#[verifier::external_body]
pub(crate) fn list_len(v: &serde_json::Value) -> (r: Option<usize>)
    ensures
        match r {
            Some(n) => json(*v) matches JsonView::List(s) && s.len() == n,
            None => !(json(*v) is List),
        },
{
    match v.as_array() {
        Some(items) => Some(items.len()),
        None => None,
    }
}

/// Calls `Value::is_object`: whether the value is an object.
#[verifier::external_body]
pub(crate) fn is_object(v: &serde_json::Value) -> (r: bool)
    ensures
        r == (json(*v) is Object),
{
    v.is_object()
}

/// Calls `Value::as_str`: the characters of a JSON string, and nothing for any other value.
#[verifier::external_body]
pub(crate) fn value_text<'a>(v: &'a serde_json::Value) -> (r: Option<&'a str>)
    ensures
        match r {
            Some(s) => as_text(json(*v)) == Some(s@),
            None => as_text(json(*v)) is None,
        },
{
    v.as_str()
}

/// Calls `Value::as_u64`: the number where it is held as an integer that is not negative, and
/// nothing for any other value.
#[verifier::external_body]
pub(crate) fn value_uint(v: &serde_json::Value) -> (r: Option<u64>)
    ensures
        r == as_uint(json(*v)),
{
    v.as_u64()
}

/// Calls `Value::clone`: a value with the same contents.
#[verifier::external_body]
pub(crate) fn copy_value(v: &serde_json::Value) -> (r: serde_json::Value)
    ensures
        json(r) == json(*v),
{
    v.clone()
}

/// What `serde_json::from_value` says of a value that is asked for as a `String` and is none.
pub uninterp spec fn text_error(v: JsonView) -> Seq<char>;

/// What `serde_json::from_value` says of a value that is asked for as a `u64` and is none.
pub uninterp spec fn uint_error(v: JsonView) -> Seq<char>;

/// Calls `serde_json::from_value` on a copy of the value, for a `String`, and turns the error that
/// it returns into text: an error for each value that is no JSON string. What it says is named. It
/// ends in what was asked for.
#[verifier::external_body]
pub(crate) fn text_fault(v: &serde_json::Value) -> (r: Option<String>)
    ensures
        match r {
            Some(text) => as_text(json(*v)) is None && text@ == text_error(json(*v))
                && "a string"@.is_suffix_of(text@),
            None => as_text(json(*v)) is Some,
        },
{
    match serde_json::from_value::<String>(v.clone()) {
        Ok(_) => None,
        Err(e) => Some(e.to_string()),
    }
}

/// Calls `serde_json::from_value` on a copy of the value, for a `u64`, and turns the error that it
/// returns into text: an error for each value that is not held as an integer of 64 bits without a
/// sign. What it says is named. It ends in what was asked for.
#[verifier::external_body]
pub(crate) fn uint_fault(v: &serde_json::Value) -> (r: Option<String>)
    ensures
        match r {
            Some(text) => as_uint(json(*v)) is None && text@ == uint_error(json(*v))
                && "u64"@.is_suffix_of(text@),
            None => as_uint(json(*v)) is Some,
        },
{
    match serde_json::from_value::<u64>(v.clone()) {
        Ok(_) => None,
        Err(e) => Some(e.to_string()),
    }
}

} // verus!
