//! JSON values as `serde_json` holds them.
//!
//! A `serde_json::Value` is opaque to the verifier. [`json_of`] names what a
//! value holds, and every item in this file states, without proof, how one
//! function of `serde_json` reads or builds a value in terms of that name.
//! Nothing else in the library is taken on trust.

use vstd::prelude::*;

verus! {

/// A JSON number.
pub enum JsonNumber {
    /// A whole number from 0 to `u64::MAX`.
    Unsigned(u64),
    /// A whole number below zero.
    Negative(i64),
    /// Any other number, told apart by the bits of its double.
    Real(u64),
}

/// What a JSON value holds. The members of an object keep the order in which
/// they were written or inserted, and no two of them share a name.
pub enum Json {
    Null,
    Bool(bool),
    Number(JsonNumber),
    Text(Seq<char>),
    Array(Seq<Json>),
    Object(Seq<(Seq<char>, Json)>),
}

/// The first of `members` that is named `key`.
pub open spec fn first_named(members: Seq<(Seq<char>, Json)>, key: Seq<char>) -> Option<Json>
    decreases members.len(),
{
    if members.len() == 0 {
        None
    } else if members[0].0 == key {
        Some(members[0].1)
    } else {
        first_named(members.drop_first(), key)
    }
}

impl Json {
    /// The member of this object that is named `key`; `None` where it has no
    /// such member, or where this is no object.
    pub open spec fn member(self, key: Seq<char>) -> Option<Json> {
        match self {
            Json::Object(members) => first_named(members, key),
            _ => None,
        }
    }
}

/// No two of `members` share a name.
pub open spec fn distinct_names(members: Seq<(String, serde_json::Value)>) -> bool {
    forall|i: int, j: int|
        0 <= i < j < members.len() ==> (#[trigger] members[i]).0@ != (#[trigger] members[j]).0@
}

/// `serde_json::Value`, the type of a JSON value. Nothing of its inside is
/// shown to the verifier: what a value holds is told by [`json_of`] alone.
#[verifier::external_type_specification]
#[verifier::external_body]
pub struct ExValue(serde_json::Value);

/// What `value` holds: `null`, a boolean, a number, a string, the items of
/// an array, or the members of an object in their order.
pub uninterp spec fn json_of(value: serde_json::Value) -> Json;

/// What `serde_json::from_str` makes of `text`: the value it reads, or the
/// message of the error it gives.
pub uninterp spec fn json_parse(text: Seq<char>) -> Result<Json, Seq<char>>;

/// What `serde_json::to_string_pretty` writes for a value that holds `json`,
/// or the message of the error it gives.
pub uninterp spec fn json_pretty(json: Json) -> Result<Seq<char>, Seq<char>>;

/// A text or a message, by its characters.
pub open spec fn texts_of(outcome: Result<String, String>) -> Result<Seq<char>, Seq<char>> {
    match outcome {
        Ok(text) => Ok(text@),
        Err(message) => Err(message@),
    }
}

/// What each of `values` holds, in order.
pub open spec fn jsons_of(values: Seq<serde_json::Value>) -> Seq<Json> {
    values.map_values(|v: serde_json::Value| json_of(v))
}

/// The members that `pairs` make, in order.
pub open spec fn members_of(pairs: Seq<(String, serde_json::Value)>) -> Seq<(Seq<char>, Json)> {
    pairs.map_values(|p: (String, serde_json::Value)| (p.0@, json_of(p.1)))
}

/// `serde_json::Value::as_array` hands out the items of an array, and `None`
/// for every other value.
pub assume_specification[ serde_json::Value::as_array ](value: &serde_json::Value) -> (items:
    Option<&Vec<serde_json::Value>>)
    ensures
        match items {
            Some(list) => json_of(*value) == Json::Array(jsons_of(list@)),
            None => !(json_of(*value) is Array),
        },
;

/// `serde_json::Value::as_u64` hands out a whole number from 0 to `u64::MAX`,
/// and `None` for every other value: a negative number, a fraction, or no
/// number at all.
pub assume_specification[ serde_json::Value::as_u64 ](value: &serde_json::Value) -> (number:
    Option<u64>)
    ensures
        match number {
            Some(n) => json_of(*value) == Json::Number(JsonNumber::Unsigned(n)),
            None => !(json_of(*value) matches Json::Number(JsonNumber::Unsigned(_))),
        },
;

/// `serde_json::Value::as_str` hands out the text of a string, and `None` for
/// every other value.
pub assume_specification[ serde_json::Value::as_str ](value: &serde_json::Value) -> (text:
    Option<&str>)
    ensures
        match text {
            Some(s) => json_of(*value) == Json::Text(s@),
            None => !(json_of(*value) is Text),
        },
;

/// `serde_json::Value::as_bool` hands out `true` or `false`, and `None` for
/// every other value.
pub assume_specification[ serde_json::Value::as_bool ](value: &serde_json::Value) -> (flag:
    Option<bool>)
    ensures
        match flag {
            Some(b) => json_of(*value) == Json::Bool(b),
            None => !(json_of(*value) is Bool),
        },
;

/// `serde_json::Value::get` with a string key hands out the member of that
/// name, and `None` where the object has none or the value is no object.
#[verifier::external_body]
pub(crate) fn member_of<'a>(value: &'a serde_json::Value, key: &str) -> (found: Option<
    &'a serde_json::Value,
>)
    ensures
        match found {
            Some(member) => json_of(*value).member(key@) == Some(json_of(*member)),
            None => json_of(*value).member(key@) is None,
        },
{
    value.get(key)
}

/// `serde_json::from_str`, read as a `serde_json::Value`. Its result depends
/// on the text alone, so it is named: [`json_parse`]. An error is handed on
/// as its message.
#[verifier::external_body]
pub(crate) fn parse_value(text: &str) -> (parsed: Result<serde_json::Value, String>)
    ensures
        match parsed {
            Ok(value) => json_parse(text@) == Ok::<Json, Seq<char>>(json_of(value)),
            Err(message) => json_parse(text@) == Err::<Json, Seq<char>>(message@),
        },
{
    serde_json::from_str::<serde_json::Value>(text).map_err(|e| e.to_string())
}

/// `serde_json::to_string_pretty` of a value. Its result depends on what the
/// value holds alone, so it is named: [`json_pretty`]. One fact is stated of
/// it: an array without items is written as `[]`. An error is handed on as
/// its message.
#[verifier::external_body]
pub(crate) fn pretty_text(value: &serde_json::Value) -> (written: Result<String, String>)
    ensures
        texts_of(written) == json_pretty(json_of(*value)),
        json_of(*value) == Json::Array(Seq::<Json>::empty()) ==> (texts_of(written) == Ok::<
            Seq<char>,
            Seq<char>,
        >("[]"@)),
{
    serde_json::to_string_pretty(value).map_err(|e| e.to_string())
}

/// `serde_json::Value::from` of a `u64` makes the number itself.
#[verifier::external_body]
pub(crate) fn number_value(n: u64) -> (value: serde_json::Value)
    ensures
        json_of(value) == Json::Number(JsonNumber::Unsigned(n)),
{
    serde_json::Value::from(n)
}

/// `serde_json::Value::from` of a `String` makes a string of that text.
#[verifier::external_body]
pub(crate) fn text_value(text: String) -> (value: serde_json::Value)
    ensures
        json_of(value) == Json::Text(text@),
{
    serde_json::Value::from(text)
}

/// `serde_json::Value::from` of a `bool` makes `true` or `false`.
#[verifier::external_body]
pub(crate) fn bool_value(flag: bool) -> (value: serde_json::Value)
    ensures
        json_of(value) == Json::Bool(flag),
{
    serde_json::Value::from(flag)
}

/// `serde_json::Value::from` of a vector of values makes the array of those
/// values, in order.
#[verifier::external_body]
pub(crate) fn array_value(items: Vec<serde_json::Value>) -> (value: serde_json::Value)
    ensures
        json_of(value) == Json::Array(jsons_of(items@)),
{
    serde_json::Value::from(items)
}

/// `serde_json::Value::from_iter` of names paired with values makes the
/// object with those members. With the crate's `preserve_order` feature the
/// members stay in the order given; names that differ are asked for, since a
/// repeated name would replace the earlier member.
#[verifier::external_body]
pub(crate) fn object_value(members: Vec<(String, serde_json::Value)>) -> (value: serde_json::Value)
    requires
        distinct_names(members@),
    ensures
        json_of(value) == Json::Object(members_of(members@)),
{
    serde_json::Value::from_iter(members)
}

} // verus!
