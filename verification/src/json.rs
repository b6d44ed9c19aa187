//! JSON values, held by `serde_json`.

use vstd::prelude::*;

verus! {

/// The `serde_json` representation of a JSON value.
#[verifier::external_type_specification]
#[verifier::external_body]
pub struct ExJsonValue(serde_json::Value);

/// The `serde_json` representation of the members of a JSON object.
#[verifier::external_type_specification]
#[verifier::external_body]
#[verifier::reject_recursive_types(K)]
#[verifier::reject_recursive_types(V)]
pub struct ExJsonMap<K, V>(serde_json::Map<K, V>);

/// A JSON value.
pub enum Json {
    Null,
    Bool(bool),
    /// A number without a fraction or exponent.
    Int(int),
    /// Any other number, as the bits of a double.
    Float(u64),
    Str(Seq<char>),
    Array(Seq<Json>),
    Object(Map<Seq<char>, Json>),
}

/// The JSON value that a `serde_json::Value` holds.
pub uninterp spec fn json_of(value: serde_json::Value) -> Json;

/// The members that a `serde_json::Map` holds.
pub uninterp spec fn members_of(map: serde_json::Map<String, serde_json::Value>) -> Map<
    Seq<char>,
    Json,
>;

/// How a JSON value is written without white space.
pub uninterp spec fn json_text(json: Json) -> Seq<char>;

/// The JSON value that a text writes, if it writes one.
pub uninterp spec fn parsed_json(text: Seq<char>) -> Option<Json>;

/// The members of an object that has none.
pub open spec fn no_members() -> Map<Seq<char>, Json> {
    Map::empty()
}

/// An object without members, made by `serde_json::Map::new`.
#[verifier::external_body]
pub(crate) fn new_object() -> (r: serde_json::Map<String, serde_json::Value>)
    ensures
        members_of(r) == no_members(),
{
    serde_json::Map::new()
}

/// Sets a member with `serde_json::Map::insert`, which replaces a value that
/// was there.
#[verifier::external_body]
pub(crate) fn set_member(
    object: &mut serde_json::Map<String, serde_json::Value>,
    name: &str,
    value: serde_json::Value,
)
    ensures
        members_of(*final(object)) == members_of(*old(object)).insert(name@, json_of(value)),
{
    object.insert(name.to_owned(), value);
}

/// Sets every member of another object with the `extend` of
/// `serde_json::Map`, which replaces the values that were there.
#[verifier::external_body]
pub(crate) fn set_members(
    object: &mut serde_json::Map<String, serde_json::Value>,
    others: serde_json::Map<String, serde_json::Value>,
)
    ensures
        members_of(*final(object)) == members_of(*old(object)).union_prefer_right(
            members_of(others),
        ),
{
    object.extend(others);
}

/// A string, made by the `From<&str>` of `serde_json::Value`.
#[verifier::external_body]
pub(crate) fn string_value(s: &str) -> (r: serde_json::Value)
    ensures
        json_of(r) == Json::Str(s@),
{
    serde_json::Value::from(s)
}

/// A boolean, made by the `From<bool>` of `serde_json::Value`.
#[verifier::external_body]
pub(crate) fn bool_value(b: bool) -> (r: serde_json::Value)
    ensures
        json_of(r) == Json::Bool(b),
{
    serde_json::Value::from(b)
}

/// A number, made by the `From<i64>` of `serde_json::Value`.
#[verifier::external_body]
pub(crate) fn i64_value(n: i64) -> (r: serde_json::Value)
    ensures
        json_of(r) == Json::Int(n as int),
{
    serde_json::Value::from(n)
}

/// A number, made by the `From<u64>` of `serde_json::Value`.
#[verifier::external_body]
pub(crate) fn u64_value(n: u64) -> (r: serde_json::Value)
    ensures
        json_of(r) == Json::Int(n as int),
{
    serde_json::Value::from(n)
}

/// An object, as the variant `serde_json::Value::Object`.
#[verifier::external_body]
pub(crate) fn object_value(object: serde_json::Map<String, serde_json::Value>) -> (r:
    serde_json::Value)
    ensures
        json_of(r) == Json::Object(members_of(object)),
{
    serde_json::Value::Object(object)
}

/// An array of one item, as the variant `serde_json::Value::Array`.
#[verifier::external_body]
pub(crate) fn singleton_value(item: serde_json::Value) -> (r: serde_json::Value)
    ensures
        json_of(r) == Json::Array(seq![json_of(item)]),
{
    serde_json::Value::Array(vec![item])
}

/// The members of a value that is the variant `serde_json::Value::Object`, and
/// none of any other.
#[verifier::external_body]
pub(crate) fn into_object(value: serde_json::Value) -> (r: Option<
    serde_json::Map<String, serde_json::Value>,
>)
    ensures
        match json_of(value) {
            Json::Object(members) => r matches Some(object) && members_of(object) == members,
            _ => r is None,
        },
{
    match value {
        serde_json::Value::Object(object) => Some(object),
        _ => None,
    }
}

/// The text of a value that is a string, and none of any other, by
/// `serde_json::Value::as_str`.
#[verifier::external_body]
pub(crate) fn as_string(value: &serde_json::Value) -> (r: Option<String>)
    ensures
        match json_of(*value) {
            Json::Str(s) => r matches Some(text) && text@ == s,
            _ => r is None,
        },
{
    value.as_str().map(str::to_owned)
}

/// Parses a text with `serde_json::from_str`. What it takes for JSON, and
/// which value it reads, is left to `serde_json`.
#[verifier::external_body]
pub(crate) fn parse_value(text: &str) -> (r: Option<serde_json::Value>)
    ensures
        match r {
            Some(value) => parsed_json(text@) == Some(json_of(value)),
            None => parsed_json(text@) is None,
        },
{
    serde_json::from_str::<serde_json::Value>(text).ok()
}

/// Writes a value with the `Display` of `serde_json::Value`: on one line, since
/// nothing is put between the tokens and a line break in a string is escaped.
/// How it is written beyond that is left to `serde_json`.
#[verifier::external_body]
pub(crate) fn value_text(value: &serde_json::Value) -> (r: String)
    ensures
        r@ == json_text(json_of(*value)),
        !r@.contains('\n'),
{
    value.to_string()
}

}
