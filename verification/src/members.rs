//! Reading the string members of a JSON object.

use crate::json::{json_of, member, Json};
use crate::text::text_of;
use vstd::prelude::*;

verus! {

/// The text under `key`, where the document is an object that holds a
/// string there.
pub open spec fn text_member(doc: Json, key: Seq<char>) -> Option<Seq<char>> {
    match doc {
        Json::Object(members) => if members.contains_key(key) {
            match members[key] {
                Json::Text(t) => Some(t),
                _ => None,
            }
        } else {
            None
        },
        _ => None,
    }
}

/// The text under `key`, and the empty text where there is none.
pub open spec fn text_field(doc: Json, key: Seq<char>) -> Seq<char> {
    match text_member(doc, key) {
        Some(t) => t,
        None => Seq::empty(),
    }
}

/// The string that the value holds under `key`: `None` where the value is
/// no object, has no such key, or holds something other than a string there.
pub fn string_member(value: &serde_json::Value, key: &str) -> (found: Option<String>)
    ensures
        text_of(found) == text_member(json_of(*value), key@),
{
    match member(value, key) {
        Some(m) => match m.as_str() {
            Some(t) => Some(t.to_owned()),
            None => None,
        },
        None => None,
    }
}

/// The string that the value holds under `key`, and the empty string where
/// [`string_member`] finds none.
pub fn string_field(value: &serde_json::Value, key: &str) -> (text: String)
    ensures
        text@ == text_field(json_of(*value), key@),
{
    match string_member(value, key) {
        Some(t) => t,
        None => String::new(),
    }
}

} // verus!
