//! JSON documents, as `serde_json` parses, holds and renders them.
//!
//! A `serde_json::Value` is opaque to the verifier. What it holds is
//! described by [`Json`], a mathematical tree, and every function of this
//! module is stated over that tree. None of these statements is proved:
//! each says what the `serde_json` item that it names does.

use vstd::prelude::*;

verus! {

/// A JSON document: what a `serde_json::Value` holds.
///
/// An object is a map from its keys to its members, so the members have no
/// order of their own and no key occurs twice. A number is held by its
/// digits as the rendering writes them.
pub enum Json {
    Null,
    Boolean(bool),
    Number(Seq<char>),
    Text(Seq<char>),
    Array(Seq<Json>),
    Object(Map<Seq<char>, Json>),
}

#[verifier::external_type_specification]
#[verifier::external_body]
pub struct ExValue(serde_json::Value);

/// The document that a `serde_json::Value` holds.
pub uninterp spec fn json_of(value: serde_json::Value) -> Json;

/// The document that `serde_json::from_str` reads from a text, or `None`
/// where it reports an error.
pub uninterp spec fn json_parse(text: Seq<char>) -> Option<Json>;

/// The compact text that `serde_json` writes for a document through
/// `Display`, the members of an object in the order of their keys.
pub uninterp spec fn json_text(doc: Json) -> Seq<char>;

/// The documents that the elements of a vector of values hold, in order.
pub open spec fn json_of_each(values: Seq<serde_json::Value>) -> Seq<Json> {
    values.map_values(|v: serde_json::Value| json_of(v))
}

/// The members that a list of keys and values spells: each key with the
/// document of its value.
pub open spec fn members_of(pairs: Seq<(String, serde_json::Value)>) -> Map<Seq<char>, Json>
    decreases pairs.len(),
{
    if pairs.len() == 0 {
        Map::empty()
    } else {
        members_of(pairs.drop_last()).insert(pairs.last().0@, json_of(pairs.last().1))
    }
}

/// Whether no key occurs twice in a list of keys and values.
pub open spec fn distinct_keys(pairs: Seq<(String, serde_json::Value)>) -> bool {
    forall|i: int, j: int| 0 <= i < j < pairs.len() ==> (#[trigger] pairs[i]).0@ != (#[trigger] pairs[j]).0@
}

/// The character for a digit below ten.
pub open spec fn digit_char(d: nat) -> char {
    (('0' as u8) + d) as u8 as char
}

/// A number in decimal notation, without leading zeros.
pub open spec fn decimal(n: nat) -> Seq<char>
    decreases n,
{
    if n < 10 {
        seq![digit_char(n)]
    } else {
        decimal(n / 10).push(digit_char(n % 10))
    }
}

/// `serde_json::Value::as_array` hands out the elements of an array, and
/// `None` for any other value.
pub assume_specification[ serde_json::Value::as_array ](value: &serde_json::Value) -> (items:
    Option<&Vec<serde_json::Value>>)
    ensures
        match items {
            Some(v) => json_of(*value) == Json::Array(json_of_each(v@)),
            None => !(json_of(*value) is Array),
        },
;

/// `serde_json::Value::as_str` hands out the text of a string, and `None`
/// for any other value.
pub assume_specification[ serde_json::Value::as_str ](value: &serde_json::Value) -> (text: Option<
    &str,
>)
    ensures
        match text {
            Some(t) => json_of(*value) == Json::Text(t@),
            None => !(json_of(*value) is Text),
        },
;

/// `serde_json::Value::is_object` tells whether the value is an object.
pub assume_specification[ serde_json::Value::is_object ](value: &serde_json::Value) -> (yes: bool)
    ensures
        yes == (json_of(*value) is Object),
;

/// `serde_json::Value::get` with a string key hands out the member that an
/// object holds under that key, and `None` where the value is no object or
/// the object has no such key.
#[verifier::external_body]
pub(crate) fn member<'a>(value: &'a serde_json::Value, key: &str) -> (found: Option<
    &'a serde_json::Value,
>)
    ensures
        match found {
            Some(m) => json_of(*value) matches Json::Object(members) && members.contains_key(key@)
                && members[key@] == json_of(*m),
            None => !(json_of(*value) matches Json::Object(members) && members.contains_key(
                key@,
            )),
        },
{
    value.get(key)
}

/// `serde_json::Value::String`: the value that is the given string.
#[verifier::external_body]
pub(crate) fn text_value(text: String) -> (value: serde_json::Value)
    ensures
        json_of(value) == Json::Text(text@),
{
    serde_json::Value::String(text)
}

/// `From<u32>` for `serde_json::Value`: the value that is the given whole
/// number, which is written in decimal notation.
#[verifier::external_body]
pub(crate) fn number_value(n: u32) -> (value: serde_json::Value)
    ensures
        json_of(value) == Json::Number(decimal(n as nat)),
{
    serde_json::Value::from(n)
}

/// `serde_json::Value::Array`: the array of the given values, in order.
#[verifier::external_body]
pub(crate) fn array_value(items: Vec<serde_json::Value>) -> (value: serde_json::Value)
    ensures
        json_of(value) == Json::Array(json_of_each(items@)),
{
    serde_json::Value::Array(items)
}

/// `serde_json::Value::Object` of the `serde_json::Map` that `FromIterator`
/// collects from keys and values: the object that holds each value under
/// its key. No key may occur twice.
#[verifier::external_body]
pub(crate) fn object_value(members: Vec<(String, serde_json::Value)>) -> (value: serde_json::Value)
    requires
        distinct_keys(members@),
    ensures
        json_of(value) == Json::Object(members_of(members@)),
{
    serde_json::Value::Object(members.into_iter().collect())
}

/// `ToString::to_string` on a `serde_json::Value`, which goes through its
/// `Display`: the compact JSON text of the value.
#[verifier::external_body]
pub(crate) fn render(value: &serde_json::Value) -> (text: String)
    ensures
        text@ == json_text(json_of(*value)),
{
    value.to_string()
}

/// `serde_json::from_str` into a `serde_json::Value`: the value holds the
/// document that the text spells, and there is none where the text is not
/// JSON.
#[verifier::external_body]
pub(crate) fn parse(text: &str) -> (value: Option<serde_json::Value>)
    ensures
        match value {
            Some(v) => json_parse(text@) == Some(json_of(v)),
            None => json_parse(text@) is None,
        },
{
    serde_json::from_str::<serde_json::Value>(text).ok()
}

} // verus!
