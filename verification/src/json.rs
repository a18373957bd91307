//! JSON documents as trees of plain values: serde_json parses a text, and
//! its value is converted node for node; looking things up in the tree is
//! the library's own, verified code.
use crate::time::ReelDuration;
use serde_json::Value;
use std::time::Duration;
use vstd::prelude::*;

verus! {

#[verifier::external_type_specification]
#[verifier::external_body]
pub struct ExJsonValue(Value);

/// A JSON number as serde_json's readers see it.
#[derive(Clone, Copy, Debug)]
pub struct JsonNumber {
    /// What `as_u64` gives.
    pub unsigned: Option<u64>,
    /// What `as_i64` gives.
    pub signed: Option<i64>,
    /// What `as_f64` gives, as the duration of that many seconds that
    /// `Duration::try_from_secs_f64` makes of it, where it makes one.
    pub seconds: Option<ReelDuration>,
}

/// A JSON value; an object keeps its entries in serde_json's map order.
#[derive(Debug)]
pub enum Json {
    Null,
    Bool(bool),
    Number(JsonNumber),
    Text(String),
    Array(Vec<Json>),
    Object(Vec<(String, Json)>),
}

/// serde_json's parse of `text`, as a tree: `None` where `text` is not
/// JSON.
pub uninterp spec fn json_document(text: Seq<char>) -> Option<Json>;

/// The tree that a serde_json value is, node for node.
pub uninterp spec fn json_tree(value: Value) -> Json;

/// `serde_json::from_str` into a `Value`; `None` where the text is not
/// JSON. The value's tree is the document of the text.
#[verifier::external_body]
fn parse_value(text: &str) -> (r: Option<Value>)
    ensures
        r matches Some(v) ==> json_document(text@) == Some(json_tree(v)),
        r is None ==> json_document(text@) is None,
{
    serde_json::from_str(text).ok()
}

/// A serde_json `Value` converted node for node (see `json_tree`): each
/// variant into its namesake, numbers through `as_u64`, `as_i64` and
/// `as_f64` (see `JsonNumber`), an object's entries in the map's order.
#[verifier::external_body]
fn value_tree(value: Value) -> (r: Json)
    ensures
        r == json_tree(value),
{
    match value {
        Value::Null => Json::Null,
        Value::Bool(b) => Json::Bool(b),
        Value::Number(n) => Json::Number(JsonNumber {
            unsigned: n.as_u64(),
            signed: n.as_i64(),
            seconds: n.as_f64().and_then(|x| Duration::try_from_secs_f64(x).ok()).map(|d| ReelDuration { secs: d.as_secs(), nanos: d.subsec_nanos() }),
        }),
        Value::String(s) => Json::Text(s),
        Value::Array(a) => Json::Array(a.into_iter().map(value_tree).collect()),
        Value::Object(m) => Json::Object(m.into_iter().map(|(k, x)| (k, value_tree(x))).collect()),
    }
}

/// The tree of a JSON text; `None` where the text is not JSON.
pub fn parse_json(text: &str) -> (r: Option<Json>)
    ensures
        r == json_document(text@),
{
    match parse_value(text) {
        Some(v) => Some(value_tree(v)),
        None => None,
    }
}

/// The value under `key` among an object's entries: that of the first
/// entry with this key (serde_json's maps hold each key once).
pub open spec fn entries_lookup(entries: Seq<(String, Json)>, key: Seq<char>) -> Option<Json>
    decreases entries.len(),
{
    if entries.len() == 0 {
        None
    } else if entries[0].0@ == key {
        Some(entries[0].1)
    } else {
        entries_lookup(entries.drop_first(), key)
    }
}

/// The value under `key` where `v` is an object that has it.
pub open spec fn json_field(v: Json, key: Seq<char>) -> Option<Json> {
    match v {
        Json::Object(entries) => entries_lookup(entries@, key),
        _ => None,
    }
}

/// The `i`th element where `v` is an array that long.
pub open spec fn json_element(v: Json, i: int) -> Option<Json> {
    match v {
        Json::Array(items) => if 0 <= i < items@.len() {
            Some(items@[i])
        } else {
            None
        },
        _ => None,
    }
}

/// A value that may be missing, read as serde_json's indexing reads it:
/// a missing value is `null`.
pub open spec fn or_null(o: Option<Json>) -> Json {
    match o {
        Some(v) => v,
        None => Json::Null,
    }
}

/// A borrowed value that may be missing, as a value.
pub open spec fn deref_json(o: Option<&Json>) -> Option<Json> {
    match o {
        Some(v) => Some(*v),
        None => None,
    }
}

/// `as_str`: the text of a string value.
pub open spec fn json_text(v: Json) -> Option<Seq<char>> {
    match v {
        Json::Text(s) => Some(s@),
        _ => None,
    }
}

/// `as_u64` of a value.
pub open spec fn json_u64(v: Json) -> Option<u64> {
    match v {
        Json::Number(n) => n.unsigned,
        _ => None,
    }
}

/// `as_i64` of a value.
pub open spec fn json_i64(v: Json) -> Option<i64> {
    match v {
        Json::Number(n) => n.signed,
        _ => None,
    }
}

/// `as_f64` of a value, as a duration in seconds.
pub open spec fn json_seconds(v: Json) -> Option<ReelDuration> {
    match v {
        Json::Number(n) => n.seconds,
        _ => None,
    }
}

/// `as_bool` of a value.
pub open spec fn json_bool(v: Json) -> Option<bool> {
    match v {
        Json::Bool(b) => Some(b),
        _ => None,
    }
}

/// The value under `key`, where `v` is an object that has the key.
pub fn field<'a>(v: &'a Json, key: &str) -> (r: Option<&'a Json>)
    ensures
        deref_json(r) == json_field(*v, key@),
{
    match v {
        Json::Object(entries) => {
            let n = entries.len();
            let wanted = String::from_str(key);
            assert(entries@.subrange(0, n as int) =~= entries@);
            let mut i: usize = 0;
            while i < n
                invariant
                    n == entries@.len(),
                    i <= n,
                    wanted@ == key@,
                    json_field(*v, key@) == entries_lookup(entries@.subrange(i as int, n as int), key@),
                decreases n - i,
            {
                let ghost rest = entries@.subrange(i as int, n as int);
                assert(rest[0] == entries@[i as int]);
                assert(rest.drop_first() =~= entries@.subrange(i + 1, n as int));
                if entries[i].0 == wanted {
                    return Some(&entries[i].1);
                }
                i = i + 1;
            }
            None
        },
        _ => None,
    }
}

/// The `i`th element, where `v` is an array that long.
pub fn element<'a>(v: &'a Json, i: usize) -> (r: Option<&'a Json>)
    ensures
        deref_json(r) == json_element(*v, i as int),
{
    match v {
        Json::Array(items) => if i < items.len() {
            Some(&items[i])
        } else {
            None
        },
        _ => None,
    }
}

/// `as_str`, the text copied.
pub fn text_of(v: &Json) -> (r: Option<String>)
    ensures
        r matches Some(s) ==> json_text(*v) == Some(s@),
        r is None ==> json_text(*v) is None,
{
    match v {
        Json::Text(s) => Some(s.clone()),
        _ => None,
    }
}

/// `as_u64`.
pub fn u64_of(v: &Json) -> (r: Option<u64>)
    ensures
        r == json_u64(*v),
{
    match v {
        Json::Number(n) => n.unsigned,
        _ => None,
    }
}

/// `as_i64`.
pub fn i64_of(v: &Json) -> (r: Option<i64>)
    ensures
        r == json_i64(*v),
{
    match v {
        Json::Number(n) => n.signed,
        _ => None,
    }
}

/// `as_f64`, as a duration in seconds.
pub fn seconds_of(v: &Json) -> (r: Option<ReelDuration>)
    ensures
        r == json_seconds(*v),
{
    match v {
        Json::Number(n) => n.seconds,
        _ => None,
    }
}

/// `as_bool`.
pub fn bool_of(v: &Json) -> (r: Option<bool>)
    ensures
        r == json_bool(*v),
{
    match v {
        Json::Bool(b) => Some(*b),
        _ => None,
    }
}

/// The text that `serde_json::to_string_pretty` writes for the object
/// made by inserting `key1` with the string `text1`, then `key2` with the
/// string `text2`, into serde_json's map.
pub uninterp spec fn pretty_object_text(key1: Seq<char>, text1: Seq<char>, key2: Seq<char>, text2: Seq<char>) -> Seq<char>;

/// `serde_json::to_string_pretty` of a two-entry object of strings (see
/// `pretty_object_text`); writing such a value cannot fail.
#[verifier::external_body]
pub(crate) fn pretty_object(key1: &str, text1: &str, key2: &str, text2: &str) -> (r: String)
    ensures
        r@ == pretty_object_text(key1@, text1@, key2@, text2@),
{
    let mut map = serde_json::Map::new();
    map.insert(key1.to_string(), Value::from(text1));
    map.insert(key2.to_string(), Value::from(text2));
    serde_json::to_string_pretty(&Value::Object(map)).unwrap_or_default()
}

/// The text that a serde_json `Value` writes by `to_string` for the list
/// holding one object, made by inserting `key1` with the string `text1`,
/// then `key2` with the string `text2`, into serde_json's map.
pub uninterp spec fn object_list_text(key1: Seq<char>, text1: Seq<char>, key2: Seq<char>, text2: Seq<char>) -> Seq<char>;

/// `Value::to_string` of a list holding one two-entry object of strings
/// (see `object_list_text`).
#[verifier::external_body]
pub(crate) fn object_list(key1: &str, text1: &str, key2: &str, text2: &str) -> (r: String)
    ensures
        r@ == object_list_text(key1@, text1@, key2@, text2@),
{
    let mut map = serde_json::Map::new();
    map.insert(key1.to_string(), Value::from(text1));
    map.insert(key2.to_string(), Value::from(text2));
    Value::Array(vec![Value::Object(map)]).to_string()
}

} // verus!
