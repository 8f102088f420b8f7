//! Reading the members of a JSON document by their names.

use vstd::prelude::*;
use crate::json::{
    integer_of, json_view, lists_names, member, names_of, number_integer, number_of, object_of,
    text_of, Json,
};

verus! {

/// The member of `document` under `key`, where `document` is an object that
/// has one.
pub open spec fn member_at(document: Json, key: Seq<char>) -> Option<Json> {
    match document {
        Json::Object(members) => if members.contains_key(key) {
            Some(members[key])
        } else {
            None
        },
        _ => None,
    }
}

/// The text under `key` in `document`, where `document` has a member of that
/// name and the member is a string.
pub open spec fn text_at(document: Json, key: Seq<char>) -> Option<Seq<char>> {
    match member_at(document, key) {
        Some(Json::Text(characters)) => Some(characters),
        _ => None,
    }
}

/// The number under `key` in `document`, where `document` has a member of
/// that name and the member is a number.
pub open spec fn number_at(document: Json, key: Seq<char>) -> Option<serde_json::Number> {
    match member_at(document, key) {
        Some(Json::Number(number)) => Some(number),
        _ => None,
    }
}

/// The integer under `key` in `document`, where `document` has a member of
/// that name and the member is a whole number that fits in 64 bits with a
/// sign.
pub open spec fn integer_at(document: Json, key: Seq<char>) -> Option<i64> {
    match number_at(document, key) {
        Some(number) => number_integer(number),
        None => None,
    }
}

/// Finds the member of `document` under `key`.
pub fn read_member<'a>(document: &'a serde_json::Value, key: &str) -> (found: Option<
    &'a serde_json::Value,
>)
    ensures
        match found {
            Some(inner) => member_at(json_view(*document), key@) == Some(json_view(*inner)),
            None => member_at(json_view(*document), key@) is None,
        },
{
    member(document, key)
}

/// Reads the text under `key` in `document`.
pub fn read_text(document: &serde_json::Value, key: &str) -> (text: Option<String>)
    ensures
        match text {
            Some(characters) => text_at(json_view(*document), key@) == Some(characters@),
            None => text_at(json_view(*document), key@) is None,
        },
{
    match read_member(document, key) {
        Some(inner) => match text_of(inner) {
            Some(characters) => Some(String::from_str(characters)),
            None => None,
        },
        None => None,
    }
}

/// Reads the number under `key` in `document`.
pub fn read_number(document: &serde_json::Value, key: &str) -> (number: Option<serde_json::Number>)
    ensures
        number == number_at(json_view(*document), key@),
{
    match read_member(document, key) {
        Some(inner) => match number_of(inner) {
            Some(found) => Some(found.clone()),
            None => None,
        },
        None => None,
    }
}

/// Reads the integer under `key` in `document`.
pub fn read_integer(document: &serde_json::Value, key: &str) -> (integer: Option<i64>)
    ensures
        integer == integer_at(json_view(*document), key@),
{
    match read_member(document, key) {
        Some(inner) => match number_of(inner) {
            Some(found) => integer_of(found),
            None => None,
        },
        None => None,
    }
}

/// Whether `value` is a table of rates: an object whose every member is a
/// number. An object without members is the table without rates.
pub open spec fn is_rate_table(value: Json) -> bool {
    value matches Json::Object(members) && forall|code: Seq<char>| #[trigger]
        members.contains_key(code) ==> members[code] is Number
}

/// Decides whether `value` is a table of rates.
pub fn rate_table(value: &serde_json::Value) -> (yes: bool)
    ensures
        yes == is_rate_table(json_view(*value)),
{
    let names = match object_of(value) {
        Some(object) => names_of(object),
        None => {
            return false;
        },
    };
    let count: usize = names.len();
    let mut at: usize = 0;
    while at < count
        invariant
            at <= count,
            count == names.len(),
            json_view(*value) matches Json::Object(members) && lists_names(
                members,
                names.deep_view(),
            ) && forall|i: int|
                0 <= i < at ==> members[#[trigger] names.deep_view()[i]] is Number,
        decreases count - at,
    {
        assert(names.deep_view()[at as int] == names[at as int]@);
        let numeric = match member(value, names[at].as_str()) {
            Some(inner) => number_of(inner).is_some(),
            None => false,
        };
        if !numeric {
            return false;
        }
        at = at + 1;
    }
    true
}

} // verus!
