//! JSON values as used by the Apify API, carried as `serde_json::Value` and reasoned
//! about through the abstract `JsonView`.

use vstd::prelude::*;

verus! {

/// The content of a JSON value, as the library reasons about it.
pub enum JsonView {
    Null,
    Bool(bool),
    /// A number that serde_json holds as a 64-bit integer.
    Int(int),
    /// Any other number.
    Fraction,
    Str(Seq<char>),
    Array(Seq<JsonView>),
    Object(Map<Seq<char>, JsonView>),
}

#[verifier::external_type_specification]
#[verifier::external_body]
pub struct ExJsonValue(serde_json::Value);

#[verifier::external_type_specification]
#[verifier::external_body]
#[verifier::reject_recursive_types(K)]
#[verifier::reject_recursive_types(V)]
pub struct ExJsonMap<K, V>(serde_json::Map<K, V>);

/// What a `serde_json::Value` holds.
pub uninterp spec fn json_view(v: serde_json::Value) -> JsonView;

/// What a `serde_json::Map<String, Value>` holds, key by key.
pub uninterp spec fn json_map_view(m: serde_json::Map<String, serde_json::Value>) -> Map<Seq<char>, JsonView>;

/// The document that `serde_json::from_str::<Value>` reads from a text, or `None` where it
/// reports an error.
pub uninterp spec fn json_text_parse(text: Seq<char>) -> Option<JsonView>;

/// `serde_json::from_str::<Value>`: `Some` exactly when serde_json accepts the text, holding
/// the document named by `json_text_parse`.
#[verifier::external_body]
pub(crate) fn parse_text(text: &str) -> (res: Option<serde_json::Value>)
    ensures
        res is Some <==> json_text_parse(text@) is Some,
        res matches Some(v) ==> json_text_parse(text@) == Some(json_view(v)),
{
    serde_json::from_str::<serde_json::Value>(text).ok()
}


/// The document that `serde_json::from_slice::<Value>` reads from bytes, or `None` where it
/// reports an error.
pub uninterp spec fn json_bytes_parse(bytes: Seq<u8>) -> Option<JsonView>;

/// `serde_json::from_slice::<Value>`: `Some` exactly when serde_json accepts the bytes,
/// holding the document named by `json_bytes_parse`.
#[verifier::external_body]
pub(crate) fn parse_bytes(bytes: &[u8]) -> (res: Option<serde_json::Value>)
    ensures
        res is Some <==> json_bytes_parse(bytes@) is Some,
        res matches Some(v) ==> json_bytes_parse(bytes@) == Some(json_view(v)),
{
    serde_json::from_slice::<serde_json::Value>(bytes).ok()
}

/// `Value::get` with a string key: the member of that name when the value is an object
/// holding it, and `None` otherwise (also for every value that is not an object).
#[verifier::external_body]
pub(crate) fn get<'a>(v: &'a serde_json::Value, key: &str) -> (res: Option<&'a serde_json::Value>)
    ensures
        match json_view(*v) {
            JsonView::Object(m) => if m.contains_key(key@) {
                res matches Some(x) && json_view(*x) == m[key@]
            } else {
                res is None
            },
            _ => res is None,
        },
{
    v.get(key)
}

/// `Value::as_object`: the map of an object value, `None` for every other value.
#[verifier::external_body]
pub(crate) fn as_object(v: &serde_json::Value) -> (res: Option<&serde_json::Map<String, serde_json::Value>>)
    ensures
        res is Some <==> json_view(*v) is Object,
        res matches Some(m) ==> json_view(*v) == JsonView::Object(json_map_view(*m)),
{
    v.as_object()
}

/// `Map::get`: the value stored under the key, if any.
#[verifier::external_body]
pub(crate) fn map_get<'a>(m: &'a serde_json::Map<String, serde_json::Value>, key: &str) -> (res: Option<&'a serde_json::Value>)
    ensures
        res is Some <==> json_map_view(*m).contains_key(key@),
        res matches Some(x) ==> json_view(*x) == json_map_view(*m)[key@],
{
    m.get(key)
}

/// `Value::as_str`: the text of a string value, `None` for every other value.
#[verifier::external_body]
pub(crate) fn as_str(v: &serde_json::Value) -> (res: Option<&str>)
    ensures
        res is Some <==> json_view(*v) is Str,
        res matches Some(s) ==> json_view(*v) == JsonView::Str(s@),
{
    v.as_str()
}

/// The members of an empty object.
pub open spec fn no_members() -> Map<Seq<char>, JsonView> {
    Map::empty()
}

/// `Map::new`: an empty map.
#[verifier::external_body]
pub(crate) fn new_map() -> (res: serde_json::Map<String, serde_json::Value>)
    ensures
        json_map_view(res) == no_members(),
{
    serde_json::Map::new()
}

/// `Map::insert`: stores the value under the key, replacing any earlier value there.
#[verifier::external_body]
pub(crate) fn insert(m: &mut serde_json::Map<String, serde_json::Value>, key: String, value: serde_json::Value)
    ensures
        json_map_view(*final(m)) == json_map_view(*old(m)).insert(key@, json_view(value)),
{
    m.insert(key, value);
}

/// `Value::Object`: the object value holding the map.
#[verifier::external_body]
pub(crate) fn object(m: serde_json::Map<String, serde_json::Value>) -> (res: serde_json::Value)
    ensures
        json_view(res) == JsonView::Object(json_map_view(m)),
{
    serde_json::Value::Object(m)
}

/// `Value::String`: the string value holding the text.
#[verifier::external_body]
pub(crate) fn string(s: String) -> (res: serde_json::Value)
    ensures
        json_view(res) == JsonView::Str(s@),
{
    serde_json::Value::String(s)
}

/// `Value::Bool`: the boolean value.
#[verifier::external_body]
pub(crate) fn boolean(b: bool) -> (res: serde_json::Value)
    ensures
        json_view(res) == JsonView::Bool(b),
{
    serde_json::Value::Bool(b)
}

/// `Value::from(usize)`: the integer value.
#[verifier::external_body]
pub(crate) fn count(n: usize) -> (res: serde_json::Value)
    ensures
        json_view(res) == JsonView::Int(n as int),
{
    serde_json::Value::from(n)
}

/// An array of string values with the texts, in order.
pub open spec fn string_array(texts: Seq<Seq<char>>) -> JsonView {
    JsonView::Array(texts.map_values(|t: Seq<char>| JsonView::Str(t)))
}

/// `Value::from(Vec<String>)`: an array holding one string value per element, in order.
#[verifier::external_body]
pub(crate) fn strings(items: Vec<String>) -> (res: serde_json::Value)
    ensures
        json_view(res) == string_array(items.deep_view()),
{
    serde_json::Value::from(items)
}

/// `Value::Array`: the array value holding the elements in order.
#[verifier::external_body]
pub(crate) fn array(items: Vec<serde_json::Value>) -> (res: serde_json::Value)
    ensures
        json_view(res) == JsonView::Array(items@.map_values(|v: serde_json::Value| json_view(v))),
{
    serde_json::Value::Array(items)
}

/// `Value::clone`: an equal value.
#[verifier::external_body]
pub(crate) fn duplicate(v: &serde_json::Value) -> (res: serde_json::Value)
    ensures
        json_view(res) == json_view(*v),
{
    v.clone()
}

} // verus!
