//! JSON documents as `serde_json` reads, holds and writes them.
//!
//! A document stays a `serde_json::Value`.  The verifier cannot look inside
//! one, so this module names what a value holds ([`json_tree`]) and states,
//! for each `serde_json` function the library calls, what the function does
//! in terms of that name.  None of these statements is proved: they repeat
//! what the source of `serde_json` shows.

use vstd::prelude::*;

verus! {

/// A JSON document as a mathematical value.
///
/// A number is kept as the literal `serde_json` writes for it; nothing in this
/// library reads a number.  An object is a finite map: `serde_json` is built
/// without `preserve_order`, so an object keeps one value per key, in key
/// order, and how it was assembled leaves no trace.
pub ghost enum JsonTree {
    Null,
    Bool(bool),
    Number(Seq<char>),
    Text(Seq<char>),
    Array(Seq<JsonTree>),
    Object(Map<Seq<char>, JsonTree>),
}

impl JsonTree {
    /// The value under `key`, if this is an object that has the key.
    pub open spec fn member(self, key: Seq<char>) -> Option<JsonTree> {
        match self {
            JsonTree::Object(members) => if members.contains_key(key) {
                Some(members[key])
            } else {
                None
            },
            _ => None,
        }
    }
}

/// Makes `serde_json::Value` known to the verifier, as a type it cannot look
/// inside.
#[verifier::external_type_specification]
#[verifier::external_body]
pub struct ExValue(serde_json::Value);

/// Makes `serde_json::Map` known to the verifier, as a type it cannot look
/// inside.
#[verifier::external_type_specification]
#[verifier::external_body]
#[verifier::reject_recursive_types(K)]
#[verifier::reject_recursive_types(V)]
pub struct ExMap<K, V>(serde_json::Map<K, V>);

/// Makes `serde_json::Error` known to the verifier, as a type it cannot look
/// inside.
#[verifier::external_type_specification]
#[verifier::external_body]
pub struct ExError(serde_json::Error);

/// The members of a JSON object, as `serde_json` keeps them.
pub type JsonMap = serde_json::Map<String, serde_json::Value>;

/// The document that a `serde_json::Value` holds.
pub uninterp spec fn json_tree(value: serde_json::Value) -> JsonTree;

/// The members that a `serde_json::Map` holds, by key.
pub uninterp spec fn json_members(map: JsonMap) -> Map<Seq<char>, JsonTree>;

/// The message that a `serde_json::Error` displays.
pub uninterp spec fn error_message(error: serde_json::Error) -> Seq<char>;

/// What `serde_json::from_str` makes of a text: the document it reads, or
/// the message of the error it reports.
pub uninterp spec fn parsed_json(text: Seq<char>) -> Result<JsonTree, Seq<char>>;

/// What `serde_json::to_string` writes for a document, or the message of the
/// error it reports.
pub uninterp spec fn printed_json(tree: JsonTree) -> Result<Seq<char>, Seq<char>>;

/// An object without members.
pub open spec fn no_members() -> Map<Seq<char>, JsonTree> {
    Map::empty()
}

/// The documents held by a sequence of values, in the same order.
pub open spec fn json_trees(values: Seq<serde_json::Value>) -> Seq<JsonTree> {
    Seq::new(values.len(), |i: int| json_tree(values[i]))
}

/// `serde_json::from_str::<Value>`: reads a whole text as one JSON document.
/// The outcome, the document or the error with its message, depends on the
/// text alone; it is [`parsed_json`] of the text.
#[verifier::external_body]
pub(crate) fn parse_text(text: &str) -> (r: Result<serde_json::Value, serde_json::Error>)
    ensures
        match r {
            Ok(value) => parsed_json(text@) matches Ok(tree) && tree == json_tree(value),
            Err(error) => parsed_json(text@) matches Err(message) && message == error_message(
                error,
            ),
        },
{
    serde_json::from_str::<serde_json::Value>(text)
}

/// `serde_json::to_string`, on a `Value`: writes the document as compact JSON
/// text.  The outcome, the text or the error with its message, depends on the
/// document alone; it is [`printed_json`] of the document.
#[verifier::external_body]
pub(crate) fn print_value(value: &serde_json::Value) -> (r: Result<String, serde_json::Error>)
    ensures
        match r {
            Ok(text) => printed_json(json_tree(*value)) matches Ok(written) && written == text@,
            Err(error) => printed_json(json_tree(*value)) matches Err(message) && message
                == error_message(error),
        },
{
    serde_json::to_string(value)
}

/// `ToString::to_string` on a `serde_json::Error`: the message that the error
/// displays.
#[verifier::external_body]
pub(crate) fn error_text(error: &serde_json::Error) -> (r: String)
    ensures
        r@ == error_message(*error),
{
    error.to_string()
}

/// `Value::as_array`: the elements where the value is an array, else `None`.
#[verifier::external_body]
pub(crate) fn as_array(value: &serde_json::Value) -> (r: Option<&Vec<serde_json::Value>>)
    ensures
        match json_tree(*value) {
            JsonTree::Array(items) => r matches Some(values) && json_trees(values@) == items,
            _ => r is None,
        },
{
    value.as_array()
}

/// `Value::as_str`: the text where the value is a string, else `None`.
#[verifier::external_body]
pub(crate) fn as_str(value: &serde_json::Value) -> (r: Option<&str>)
    ensures
        match json_tree(*value) {
            JsonTree::Text(text) => r matches Some(s) && s@ == text,
            _ => r is None,
        },
{
    value.as_str()
}

/// `Value::is_null`: whether the value is JSON `null`.
#[verifier::external_body]
pub(crate) fn is_null(value: &serde_json::Value) -> (r: bool)
    ensures
        r == (json_tree(*value) is Null),
{
    value.is_null()
}

/// `Value::get` with a string index: the value under `key` where the value is
/// an object that has the key, else `None`.
#[verifier::external_body]
pub(crate) fn member<'a>(value: &'a serde_json::Value, key: &str) -> (r: Option<
    &'a serde_json::Value,
>)
    ensures
        match json_tree(*value).member(key@) {
            Some(tree) => r matches Some(found) && json_tree(*found) == tree,
            None => r is None,
        },
{
    value.get(key)
}

/// The variant `Value::Null`.
#[verifier::external_body]
pub(crate) fn null_value() -> (r: serde_json::Value)
    ensures
        json_tree(r) == JsonTree::Null,
{
    serde_json::Value::Null
}

/// `Value::from(&str)`: a JSON string with a copy of the text.
#[verifier::external_body]
pub(crate) fn text_value(text: &str) -> (r: serde_json::Value)
    ensures
        json_tree(r) == JsonTree::Text(text@),
{
    serde_json::Value::from(text)
}

/// The variant `Value::Array`: a JSON array of the given values, in order.
#[verifier::external_body]
pub(crate) fn array_value(items: Vec<serde_json::Value>) -> (r: serde_json::Value)
    ensures
        json_tree(r) == JsonTree::Array(json_trees(items@)),
{
    serde_json::Value::Array(items)
}

/// `Map::new`: a map without members.
#[verifier::external_body]
pub(crate) fn new_map() -> (r: JsonMap)
    ensures
        json_members(r) == no_members(),
{
    serde_json::Map::new()
}

/// `Map::insert`: puts `value` under `key`, in place of what the key had.
#[verifier::external_body]
pub(crate) fn map_insert(map: &mut JsonMap, key: String, value: serde_json::Value)
    ensures
        json_members(*final(map)) == json_members(*old(map)).insert(key@, json_tree(value)),
{
    map.insert(key, value);
}

/// The variant `Value::Object`: a JSON object with the members of the map.
#[verifier::external_body]
pub(crate) fn object_value(map: JsonMap) -> (r: serde_json::Value)
    ensures
        json_tree(r) == JsonTree::Object(json_members(map)),
{
    serde_json::Value::Object(map)
}

} // verus!
