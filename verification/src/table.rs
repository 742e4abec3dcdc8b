//! TOML tables, as the `toml` crate holds them, and what this library knows
//! of them. Nothing in this module is proved: each function states what the
//! function of `toml` that it calls does.

use vstd::prelude::*;

verus! {

/// What a TOML value holds, as far as this library reads it.
pub enum TomlItem {
    /// A string.
    Text(Seq<char>),
    /// A value of any other kind.
    Other,
}

/// Whether every entry is a string.
pub open spec fn all_text(entries: Map<Seq<char>, TomlItem>) -> bool {
    forall|k: Seq<char>| entries.contains_key(k) ==> #[trigger] entries[k] is Text
}

/// `toml::Value`, a TOML value.
#[verifier::external_type_specification]
#[verifier::external_body]
pub struct ExTomlValue(toml::Value);

/// `toml::map::Map`, of which `toml::Table` is the one with `String` keys
/// and `toml::Value` values.
#[verifier::external_type_specification]
#[verifier::external_body]
#[verifier::reject_recursive_types(K)]
#[verifier::reject_recursive_types(V)]
pub struct ExTomlMap<K, V>(toml::map::Map<K, V>);

/// What the value `v` holds.
pub uninterp spec fn item_of(v: toml::Value) -> TomlItem;

/// The entries that the table `t` holds, by key.
pub uninterp spec fn entries_of(t: toml::map::Map<String, toml::Value>) -> Map<
    Seq<char>,
    TomlItem,
>;

/// What `toml::from_str` reads from `text`: the entries of the document, or
/// `None` where `text` is not a TOML document.
pub uninterp spec fn parsed_toml(text: Seq<char>) -> Option<Map<Seq<char>, TomlItem>>;

/// What `toml::to_string_pretty` writes for a table whose entries are all
/// strings, or `None` where it reports an error.
pub uninterp spec fn rendered_toml(entries: Map<Seq<char>, TomlItem>) -> Option<Seq<char>>;

/// Calls `toml::from_str` for a table. The result depends on `text` alone:
/// it is the table that holds `parsed_toml(text)`, or `None` where `toml`
/// reports an error.
#[verifier::external_body]
pub(crate) fn parse_table(text: &str) -> (r: Option<toml::map::Map<String, toml::Value>>)
    ensures
        match r {
            Some(t) => parsed_toml(text@) == Some(entries_of(t)),
            None => parsed_toml(text@) is None,
        },
{
    toml::from_str::<toml::Table>(text).ok()
}

/// Calls `Map::get`: the value under `key`, or `None` where the table has
/// no such key.
#[verifier::external_body]
pub(crate) fn table_item<'a>(t: &'a toml::map::Map<String, toml::Value>, key: &str) -> (r: Option<
    &'a toml::Value,
>)
    ensures
        match r {
            Some(v) => entries_of(*t).contains_key(key@) && entries_of(*t)[key@] == item_of(*v),
            None => !entries_of(*t).contains_key(key@),
        },
{
    t.get(key)
}

/// Calls `Value::as_str`: the characters where `v` is a string, and `None`
/// otherwise.
#[verifier::external_body]
pub(crate) fn item_text(v: &toml::Value) -> (r: Option<String>)
    ensures
        match r {
            Some(s) => item_of(*v) == TomlItem::Text(s@),
            None => item_of(*v) is Other,
        },
{
    v.as_str().map(String::from)
}

/// Calls `Map::new`: a table without entries.
#[verifier::external_body]
pub(crate) fn empty_table() -> (r: toml::map::Map<String, toml::Value>)
    ensures
        entries_of(r) =~= Map::empty(),
{
    toml::Table::new()
}

/// Calls `Map::insert` with a string value: afterwards the table holds the
/// string `value` under `key`, in place of what it held there before, and
/// its other entries as before.
#[verifier::external_body]
pub(crate) fn put_text(t: &mut toml::map::Map<String, toml::Value>, key: String, value: String)
    ensures
        entries_of(*final(t)) == entries_of(*old(t)).insert(key@, TomlItem::Text(value@)),
{
    t.insert(key, toml::Value::String(value));
}

/// Calls `toml::to_string_pretty`. For a table of strings the text depends
/// on the entries alone: it is `rendered_toml` of them.
#[verifier::external_body]
pub(crate) fn render_table(t: &toml::map::Map<String, toml::Value>) -> (r: Option<String>)
    requires
        all_text(entries_of(*t)),
    ensures
        match r {
            Some(s) => rendered_toml(entries_of(*t)) == Some(s@),
            None => rendered_toml(entries_of(*t)) is None,
        },
{
    toml::to_string_pretty(t).ok()
}

} // verus!
