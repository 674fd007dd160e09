//! JSON values as the decisions of this library see them.
//!
//! The values themselves are `serde_json`'s. Verified code never looks inside
//! one: it reads and builds them through the few functions at the end of this
//! file, whose contracts are stated over the mathematical model [`Json`].

use vstd::prelude::*;

verus! {

/// The mathematical content of a JSON value.
///
/// A number carries no payload: nothing in this library reads one.
pub enum Json {
    Null,
    Bool(bool),
    Number,
    Text(Seq<char>),
    Array(Seq<Json>),
    Object(Map<Seq<char>, Json>),
}

impl Json {
    /// The member stored under `key`, when `self` is an object that has one.
    pub open spec fn member(self, key: Seq<char>) -> Option<Json> {
        match self {
            Json::Object(members) => if members.contains_key(key) {
                Some(members[key])
            } else {
                None
            },
            _ => None,
        }
    }

    /// The characters of `self`, when it is a string.
    pub open spec fn text(self) -> Option<Seq<char>> {
        match self {
            Json::Text(chars) => Some(chars),
            _ => None,
        }
    }

    /// The string stored under `key`: present exactly when `self` is an object
    /// whose member `key` is a string.
    pub open spec fn string_member(self, key: Seq<char>) -> Option<Seq<char>> {
        match self.member(key) {
            Some(inner) => inner.text(),
            None => None,
        }
    }
}

/// The members of an object that has none.
pub open spec fn no_members() -> Map<Seq<char>, Json> {
    Map::empty()
}

/// The views of an optional text.
pub open spec fn text_view(text: Option<&str>) -> Option<Seq<char>> {
    match text {
        Some(chars) => Some(chars@),
        None => None,
    }
}

/// `serde_json`'s value, carried through as it is.
#[verifier::external_type_specification]
#[verifier::external_body]
pub struct ExValue(serde_json::Value);

/// `serde_json`'s map, carried through as it is.
#[verifier::external_type_specification]
#[verifier::external_body]
#[verifier::reject_recursive_types(K)]
#[verifier::reject_recursive_types(V)]
pub struct ExJsonMap<K, V>(serde_json::Map<K, V>);

/// The map behind a JSON object: `serde_json`'s, keyed by `String`.
pub type JsonMap = serde_json::Map<String, serde_json::Value>;

/// What a `serde_json::Value` holds: `Null`, `Bool`, `Number`, `String`,
/// `Array` and `Object` map to the variant of the same meaning, arrays and
/// objects member by member.
pub uninterp spec fn json_of(value: serde_json::Value) -> Json;

/// What a `serde_json::Map` holds: each key with the content of its value.
pub uninterp spec fn json_members(members: JsonMap) -> Map<Seq<char>, Json>;

/// The contents of each value of a sequence, in order.
pub open spec fn json_items(values: Seq<serde_json::Value>) -> Seq<Json> {
    values.map_values(|value: serde_json::Value| json_of(value))
}

/// `serde_json::Value::Bool`: the JSON boolean `flag`.
#[verifier::external_body]
pub(crate) fn json_bool(flag: bool) -> (value: serde_json::Value)
    ensures
        json_of(value) == Json::Bool(flag),
{
    serde_json::Value::Bool(flag)
}

/// `serde_json::Value::String`: the JSON string with the characters of `text`.
#[verifier::external_body]
pub(crate) fn json_string(text: String) -> (value: serde_json::Value)
    ensures
        json_of(value) == Json::Text(text@),
{
    serde_json::Value::String(text)
}

/// `serde_json::Value::Array`: the JSON array of `items`, in their order.
#[verifier::external_body]
pub(crate) fn json_array(items: Vec<serde_json::Value>) -> (value: serde_json::Value)
    ensures
        json_of(value) == Json::Array(json_items(items@)),
{
    serde_json::Value::Array(items)
}

/// `serde_json::Map::new`: a map without members.
#[verifier::external_body]
pub(crate) fn json_map_new() -> (members: JsonMap)
    ensures
        json_members(members) == no_members(),
{
    serde_json::Map::new()
}

/// `serde_json::Map::insert`: afterwards `key` holds `value`, whatever it held
/// before, and every other key holds what it held.
#[verifier::external_body]
pub(crate) fn json_map_insert(
    members: &mut JsonMap,
    key: String,
    value: serde_json::Value,
)
    ensures
        json_members(*final(members)) == json_members(*old(members)).insert(key@, json_of(value)),
{
    members.insert(key, value);
}

/// `serde_json::Value::Object`: the JSON object with the members of `members`.
#[verifier::external_body]
pub(crate) fn json_object(members: JsonMap) -> (value: serde_json::Value)
    ensures
        json_of(value) == Json::Object(json_members(members)),
{
    serde_json::Value::Object(members)
}

/// `serde_json::Value::get` with a string index: the member under `key` when
/// `value` is an object that has it, nothing for any other value.
#[verifier::external_body]
pub(crate) fn json_get<'a>(value: &'a serde_json::Value, key: &str) -> (found: Option<
    &'a serde_json::Value,
>)
    ensures
        match json_of(*value).member(key@) {
            Some(inner) => found matches Some(held) && json_of(*held) == inner,
            None => found is None,
        },
{
    value.get(key)
}

/// `serde_json::Value::as_str`: the text when `value` is a string, nothing for
/// any other value.
#[verifier::external_body]
pub(crate) fn json_as_str<'a>(value: &'a serde_json::Value) -> (found: Option<&'a str>)
    ensures
        text_view(found) == json_of(*value).text(),
{
    value.as_str()
}

/// Reads the string stored under `key` in `value`.
pub fn string_member<'a>(value: &'a serde_json::Value, key: &str) -> (found: Option<&'a str>)
    ensures
        text_view(found) == json_of(*value).string_member(key@),
{
    match json_get(value, key) {
        Some(inner) => json_as_str(inner),
        None => None,
    }
}

} // verus!
