//! JSON documents, as `serde_json` holds them, and what this library knows of
//! them. Nothing in this module is proved: each function states what the
//! function of `serde_json` that it calls does.

use vstd::prelude::*;

verus! {

/// What a JSON value holds. A number is not looked into.
pub enum Json {
    Null,
    Truth(bool),
    Number,
    Text(Seq<char>),
    List(Seq<Json>),
    Record(Map<Seq<char>, Json>),
}

impl Json {
    /// The member `key` of a record; `None` for any other value and for a
    /// record without that member.
    pub open spec fn member(self, key: Seq<char>) -> Option<Json> {
        match self {
            Json::Record(m) => if m.contains_key(key) {
                Some(m[key])
            } else {
                None
            },
            _ => None,
        }
    }

    /// The element `index` of a list; `None` for any other value and for a
    /// list that is too short.
    pub open spec fn element(self, index: int) -> Option<Json> {
        match self {
            Json::List(s) => if 0 <= index < s.len() {
                Some(s[index])
            } else {
                None
            },
            _ => None,
        }
    }

    /// The characters of a string; `None` for any other value.
    pub open spec fn text(self) -> Option<Seq<char>> {
        match self {
            Json::Text(s) => Some(s),
            _ => None,
        }
    }
}

/// `serde_json::Value`, a JSON value.
#[verifier::external_type_specification]
#[verifier::external_body]
pub struct ExJsonValue(serde_json::Value);

/// `serde_json::Map`, the members of a JSON object.
#[verifier::external_type_specification]
#[verifier::external_body]
#[verifier::reject_recursive_types(K)]
#[verifier::reject_recursive_types(V)]
pub struct ExJsonMap<K, V>(serde_json::Map<K, V>);

/// What the value `v` holds.
pub uninterp spec fn json_of(v: serde_json::Value) -> Json;

/// The members that `m` holds, by key.
pub uninterp spec fn members_of(m: serde_json::Map<String, serde_json::Value>) -> Map<
    Seq<char>,
    Json,
>;

/// What `serde_json::from_str` reads from `text`: the document, or `None`
/// where `text` is not one JSON value.
pub uninterp spec fn parsed_json(text: Seq<char>) -> Option<Json>;

/// Calls `serde_json::from_str` for a `Value`. The result depends on `text`
/// alone: it is the value that holds `parsed_json(text)`, or `None` where
/// `serde_json` reports an error.
#[verifier::external_body]
pub(crate) fn parse(text: &str) -> (r: Option<serde_json::Value>)
    ensures
        match r {
            Some(v) => parsed_json(text@) == Some(json_of(v)),
            None => parsed_json(text@) is None,
        },
{
    serde_json::from_str::<serde_json::Value>(text).ok()
}

/// Calls `Value::get` with a key. It returns the member of that name where
/// `v` is an object that has one, and `None` otherwise.
#[verifier::external_body]
pub(crate) fn member<'a>(v: &'a serde_json::Value, key: &str) -> (r: Option<&'a serde_json::Value>)
    ensures
        match r {
            Some(x) => json_of(*v).member(key@) == Some(json_of(*x)),
            None => json_of(*v).member(key@) is None,
        },
{
    v.get(key)
}

/// Calls `Value::get` with a position. It returns the element at `index`
/// where `v` is an array that is long enough, and `None` otherwise.
#[verifier::external_body]
pub(crate) fn element<'a>(v: &'a serde_json::Value, index: usize) -> (r: Option<
    &'a serde_json::Value,
>)
    ensures
        match r {
            Some(x) => json_of(*v).element(index as int) == Some(json_of(*x)),
            None => json_of(*v).element(index as int) is None,
        },
{
    v.get(index)
}

/// Calls `Value::as_str`. It returns the characters where `v` is a string,
/// and `None` otherwise.
#[verifier::external_body]
pub(crate) fn text(v: &serde_json::Value) -> (r: Option<String>)
    ensures
        match r {
            Some(s) => json_of(*v).text() == Some(s@),
            None => json_of(*v).text() is None,
        },
{
    v.as_str().map(String::from)
}

/// Makes `Value::String`: the JSON string of the characters of `s`.
#[verifier::external_body]
pub(crate) fn text_value(s: String) -> (r: serde_json::Value)
    ensures
        json_of(r) == Json::Text(s@),
{
    serde_json::Value::String(s)
}

/// Makes `Value::Array`: the JSON array of `items`, in their order.
#[verifier::external_body]
pub(crate) fn list_value(items: Vec<serde_json::Value>) -> (r: serde_json::Value)
    ensures
        json_of(r) == Json::List(items@.map_values(|v: serde_json::Value| json_of(v))),
{
    serde_json::Value::Array(items)
}

/// Calls `Map::new`: a map without members.
#[verifier::external_body]
pub(crate) fn no_members() -> (r: serde_json::Map<String, serde_json::Value>)
    ensures
        members_of(r) =~= Map::empty(),
{
    serde_json::Map::new()
}

/// Calls `Map::insert`: afterwards the map holds `value` under `key`, in
/// place of what it held there before, and its other members as before.
#[verifier::external_body]
pub(crate) fn put_member(
    m: &mut serde_json::Map<String, serde_json::Value>,
    key: String,
    value: serde_json::Value,
)
    ensures
        members_of(*final(m)) == members_of(*old(m)).insert(key@, json_of(value)),
{
    m.insert(key, value);
}

/// Makes `Value::Object`: the JSON object of the members of `m`.
#[verifier::external_body]
pub(crate) fn record_value(m: serde_json::Map<String, serde_json::Value>) -> (r: serde_json::Value)
    ensures
        json_of(r) == Json::Record(members_of(m)),
{
    serde_json::Value::Object(m)
}

} // verus!
