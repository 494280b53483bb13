//! JSON payloads carried opaquely through the window manager.

use vstd::prelude::*;

verus! {

/// `serde_json::Value`: app state and launch parameters are carried through
/// the reducer untouched; no verified logic reads inside them.
#[verifier::external_type_specification]
#[verifier::external_body]
pub struct ExJsonValue(serde_json::Value);

/// The JSON object `{ key: value }` with one string member, as
/// `serde_json::json!({ key: value })` builds it.
pub uninterp spec fn json_string_member(key: Seq<char>, value: Seq<char>) -> serde_json::Value;

/// `serde_json::Value::Null`. Nothing is stated of the value: the
/// verified code only hands it on.
#[verifier::external_body]
pub fn json_null() -> (v: serde_json::Value) {
    serde_json::Value::Null
}

/// `<serde_json::Value as Clone>::clone`: the clone equals the cloned value.
pub assume_specification[ <serde_json::Value as Clone>::clone ](v: &serde_json::Value) -> (r: serde_json::Value)
    ensures
        r == *v,
;

/// Builds `{ key: value }` through `serde_json::Map::insert` and
/// `Value::Object`; the result is a function of the two texts alone.
#[verifier::external_body]
pub fn json_object_with_string(key: &str, value: String) -> (v: serde_json::Value)
    ensures
        v == json_string_member(key@, value@),
{
    let mut map = serde_json::Map::new();
    map.insert(key.to_string(), serde_json::Value::String(value));
    serde_json::Value::Object(map)
}

/// The text `serde_json::to_string_pretty` writes for a value.
pub uninterp spec fn json_pretty(v: serde_json::Value) -> Seq<char>;

/// `serde_json::to_string_pretty`, falling back to the compact `Display`
/// text if pretty printing reports an error; the result is a function of
/// the value alone.
#[verifier::external_body]
pub fn json_pretty_text(v: &serde_json::Value) -> (r: String)
    ensures
        r@ == json_pretty(*v),
{
    match serde_json::to_string_pretty(v) {
        Ok(text) => text,
        Err(_) => v.to_string(),
    }
}

/// What `serde_json::from_str::<Value>` gives for a text: the parsed
/// value, or the `Display` text of its error.
pub uninterp spec fn json_parsed(text: Seq<char>) -> Result<serde_json::Value, Seq<char>>;

/// `serde_json::from_str::<Value>`, with a failure turned into the text its
/// error displays; the result is a function of the text alone.
#[verifier::external_body]
pub fn json_parse(text: &str) -> (r: Result<serde_json::Value, String>)
    ensures
        match json_parsed(text@) {
            Ok(v) => r == Ok::<serde_json::Value, String>(v),
            Err(m) => r matches Err(e) && e@ == m,
        },
{
    match serde_json::from_str::<serde_json::Value>(text) {
        Ok(v) => Ok(v),
        Err(e) => Err(format!("{}", e)),
    }
}

/// The JSON object `serde_json` builds from `(key, value)` members; a later
/// member replaces an earlier one under the same key.
pub uninterp spec fn json_object_of(members: Seq<(Seq<char>, serde_json::Value)>) -> serde_json::Value;

/// The members of a list of `(key, value)` pairs, keys taken as text.
pub open spec fn members_view(members: Seq<(String, serde_json::Value)>) -> Seq<(Seq<char>, serde_json::Value)> {
    members.map_values(|m: (String, serde_json::Value)| (m.0@, m.1))
}

/// `<Value as FromIterator<(String, Value)>>::from_iter`: the object holding
/// the members; the result is a function of the members alone.
#[verifier::external_body]
pub fn json_object(members: Vec<(String, serde_json::Value)>) -> (v: serde_json::Value)
    ensures
        v == json_object_of(members_view(members@)),
{
    serde_json::Value::from_iter(members)
}

/// The JSON number `serde_json` makes of an unsigned count.
pub uninterp spec fn json_count_of(n: usize) -> serde_json::Value;

/// `<Value as From<usize>>::from`: the number `n`.
#[verifier::external_body]
pub fn json_count(n: usize) -> (v: serde_json::Value)
    ensures
        v == json_count_of(n),
{
    serde_json::Value::from(n)
}

/// The JSON boolean `serde_json` makes of `b`.
pub uninterp spec fn json_bool_of(b: bool) -> serde_json::Value;

/// `<Value as From<bool>>::from`: `Value::Bool(b)`.
#[verifier::external_body]
pub fn json_bool(b: bool) -> (v: serde_json::Value)
    ensures
        v == json_bool_of(b),
{
    serde_json::Value::from(b)
}

/// The JSON string `serde_json` makes of a text.
pub uninterp spec fn json_text_of(s: Seq<char>) -> serde_json::Value;

/// `<Value as From<String>>::from`: `Value::String(s)`.
#[verifier::external_body]
pub fn json_text(s: String) -> (v: serde_json::Value)
    ensures
        v == json_text_of(s@),
{
    serde_json::Value::from(s)
}

/// The JSON array of strings `serde_json` makes of a list of texts.
pub uninterp spec fn json_text_array_of(items: Seq<Seq<char>>) -> serde_json::Value;

/// `<Value as From<Vec<String>>>::from`: the array of those strings, in
/// order.
#[verifier::external_body]
pub fn json_text_array(items: Vec<String>) -> (v: serde_json::Value)
    ensures
        v == json_text_array_of(crate::model::strings_view(items@)),
{
    serde_json::Value::from(items)
}

} // verus!
