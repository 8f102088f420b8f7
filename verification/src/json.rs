//! The JSON documents of the service, read with `serde_json`.
//!
//! `serde_json` parses the bytes and hands out the members of a document.
//! What a document holds is modelled by [`Json`]; the contracts in this file
//! say over that model what each call into `serde_json` returns, and the rest
//! of the library is proved against them. Nothing in this file is proved.

use vstd::prelude::*;

verus! {

#[verifier::external_type_specification]
#[verifier::external_body]
pub struct ExValue(serde_json::Value);

#[verifier::external_type_specification]
#[verifier::external_body]
pub struct ExNumber(serde_json::Number);

#[verifier::external_type_specification]
#[verifier::external_body]
pub struct ExError(serde_json::Error);

#[verifier::external_type_specification]
#[verifier::external_body]
#[verifier::reject_recursive_types(K)]
#[verifier::reject_recursive_types(V)]
pub struct ExMap<K, V>(serde_json::Map<K, V>);

/// What a JSON value holds.
pub enum Json {
    Null,
    Bool(bool),
    Number(serde_json::Number),
    Text(Seq<char>),
    List(Seq<Json>),
    /// The members of an object, each under its name.
    Object(Map<Seq<char>, Json>),
}

/// What a `serde_json::Value` holds: its variant, and under it the string,
/// the number, the elements or the members.
pub uninterp spec fn json_view(value: serde_json::Value) -> Json;

/// What a `serde_json::Map` from strings to values holds: each member under
/// its name.
pub uninterp spec fn json_members(object: serde_json::Map<String, serde_json::Value>) -> Map<
    Seq<char>,
    Json,
>;

/// What the document holds that `serde_json::from_slice` reads from `bytes`,
/// or `None` where it reports an error.
pub uninterp spec fn json_document(bytes: Seq<u8>) -> Option<Json>;

/// The integer that `serde_json::Number::as_i64` reads from `number`.
pub uninterp spec fn number_integer(number: serde_json::Number) -> Option<i64>;

/// Calls `serde_json::from_slice` at the type `serde_json::Value`. The
/// contract claims that the outcome is a function of the bytes:
/// `json_document` is what the document holds on success and `None` on an
/// error.
#[verifier::external_body]
pub(crate) fn parse_document(bytes: &[u8]) -> (parsed: Result<
    serde_json::Value,
    serde_json::Error,
>)
    ensures
        match parsed {
            Ok(document) => json_document(bytes@) == Some(json_view(document)),
            Err(_) => json_document(bytes@) is None,
        },
{
    serde_json::from_slice::<serde_json::Value>(bytes)
}

/// Calls `serde_json::Value::get` with a string key: the member of that
/// name where the value is an object that has one, and `None` otherwise.
#[verifier::external_body]
pub(crate) fn member<'a>(value: &'a serde_json::Value, key: &str) -> (found: Option<
    &'a serde_json::Value,
>)
    ensures
        match json_view(*value) {
            Json::Object(members) => match found {
                Some(inner) => members.contains_key(key@) && json_view(*inner) == members[key@],
                None => !members.contains_key(key@),
            },
            _ => found is None,
        },
{
    value.get(key)
}

/// Calls `serde_json::Value::as_str`: the string where the value is one,
/// and `None` otherwise.
#[verifier::external_body]
pub(crate) fn text_of<'a>(value: &'a serde_json::Value) -> (text: Option<&'a str>)
    ensures
        match json_view(*value) {
            Json::Text(characters) => text matches Some(held) && held@ == characters,
            _ => text is None,
        },
{
    value.as_str()
}

/// Calls `serde_json::Value::as_number`: the number where the value is one,
/// and `None` otherwise.
#[verifier::external_body]
pub(crate) fn number_of<'a>(value: &'a serde_json::Value) -> (number: Option<
    &'a serde_json::Number,
>)
    ensures
        match json_view(*value) {
            Json::Number(held) => number matches Some(inner) && *inner == held,
            _ => number is None,
        },
{
    value.as_number()
}

/// Whether `list` holds exactly the names of `members`: every entry is a
/// name, and every name is an entry.
pub open spec fn lists_names(members: Map<Seq<char>, Json>, list: Seq<Seq<char>>) -> bool {
    &&& forall|i: int| 0 <= i < list.len() ==> members.contains_key(#[trigger] list[i])
    &&& forall|name: Seq<char>| #[trigger] members.contains_key(name) ==> list.contains(name)
}

/// Calls `serde_json::Value::as_object`: the map of the members where the
/// value is an object, and `None` otherwise.
#[verifier::external_body]
pub(crate) fn object_of<'a>(value: &'a serde_json::Value) -> (object: Option<
    &'a serde_json::Map<String, serde_json::Value>,
>)
    ensures
        match json_view(*value) {
            Json::Object(members) => object matches Some(held) && json_members(*held) == members,
            _ => object is None,
        },
{
    value.as_object()
}

/// Calls `serde_json::Map::keys` and collects what it hands out: the list
/// holds exactly the names of the members. The contract leaves the order of
/// the names open.
#[verifier::external_body]
pub(crate) fn names_of(object: &serde_json::Map<String, serde_json::Value>) -> (names: Vec<String>)
    ensures
        lists_names(json_members(*object), names.deep_view()),
{
    object.keys().cloned().collect()
}

/// Calls `serde_json::Number::as_i64`. The contract claims only that the
/// integer is a function of the number, which `number_integer` names.
#[verifier::external_body]
pub(crate) fn integer_of(number: &serde_json::Number) -> (integer: Option<i64>)
    ensures
        integer == number_integer(*number),
{
    number.as_i64()
}

/// `Clone` for `serde_json::Value`: the copy is the same value.
pub assume_specification[ <serde_json::Value as Clone>::clone ](
    value: &serde_json::Value,
) -> (copy: serde_json::Value)
    ensures
        copy == *value,
;

/// `Clone` for `serde_json::Number`: the copy is the same number.
pub assume_specification[ <serde_json::Number as Clone>::clone ](
    number: &serde_json::Number,
) -> (copy: serde_json::Number)
    ensures
        copy == *number,
;

} // verus!
