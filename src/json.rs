//! The JSON text that the library reads and writes goes through serde_json;
//! these are the calls it relies on.
use vstd::prelude::*;

verus! {

#[verifier::external_type_specification]
#[verifier::external_body]
pub struct ExJsonValue(serde_json::Value);

#[verifier::external_type_specification]
#[verifier::external_body]
#[verifier::reject_recursive_types(K)]
#[verifier::reject_recursive_types(V)]
pub struct ExJsonMap<K, V>(serde_json::Map<K, V>);

#[verifier::external_type_specification]
#[verifier::external_body]
pub struct ExJsonError(serde_json::Error);

/// The JSON string literal, quotes and escapes included, that serde_json
/// writes for a string.
pub uninterp spec fn json_quoted(s: Seq<char>) -> Seq<char>;

/// The compact rendering of a JSON text, or `None` where the text is not
/// JSON.
pub uninterp spec fn json_rendering(text: Seq<char>) -> Option<Seq<char>>;

/// What the library tells apart in a JSON value: a string and its text,
/// null, and anything else.
pub enum JsonKind {
    Text(Seq<char>),
    Null,
    Other,
}

/// The members of the JSON object that a text holds, by name, or `None`
/// where the text is not a JSON object. Of a repeated name the last member
/// counts.
pub uninterp spec fn json_members(text: Seq<char>) -> Option<Map<Seq<char>, JsonKind>>;

/// The members that a JSON object map holds, by name.
pub uninterp spec fn members(m: serde_json::Map<String, serde_json::Value>) -> Map<Seq<char>, JsonKind>;

/// What a JSON value holds, as far as the library tells values apart.
pub uninterp spec fn kind_of(v: serde_json::Value) -> JsonKind;

/// Relies on serde_json::to_string on a `str`: it writes the string as a
/// JSON string literal. Writing a `str` into memory does not fail.
#[verifier::external_body]
pub fn quote(s: &str) -> (r: String)
    ensures
        r@ == json_quoted(s@),
{
    serde_json::to_string(s).unwrap_or_default()
}

/// Relies on serde_json::from_str into a `Value` and on the compact form
/// that `Value`'s `Display` writes.
#[verifier::external_body]
pub fn render_compact(text: &str) -> (r: Option<String>)
    ensures
        r is Some <==> json_rendering(text@) is Some,
        r is Some ==> json_rendering(text@) == Some(r->Some_0@),
{
    serde_json::from_str::<serde_json::Value>(text).ok().map(|v| v.to_string())
}

/// Relies on serde_json::from_str into a `Map`: it succeeds exactly on a
/// JSON object, and the map holds that object's members.
#[verifier::external_body]
pub fn parse_object(text: &str) -> (r: Result<serde_json::Map<String, serde_json::Value>, serde_json::Error>)
    ensures
        r is Ok <==> json_members(text@) is Some,
        r is Ok ==> json_members(text@) == Some(members(r->Ok_0)),
{
    serde_json::from_str::<serde_json::Map<String, serde_json::Value>>(text)
}

/// Relies on serde_json::Map::remove: it takes the member named `key` out,
/// if there is one.
#[verifier::external_body]
pub fn take_member(m: &mut serde_json::Map<String, serde_json::Value>, key: &str) -> (r: Option<serde_json::Value>)
    ensures
        r is Some <==> members(*old(m)).contains_key(key@),
        r is Some ==> kind_of(r->Some_0) == members(*old(m))[key@],
        members(*final(m)) == members(*old(m)).remove(key@),
{
    m.remove(key)
}

/// Relies on serde_json::Value's `String` variant: the text of a JSON string,
/// and `None` for any other kind of value.
#[verifier::external_body]
pub fn into_string(v: serde_json::Value) -> (r: Option<String>)
    ensures
        r is Some <==> kind_of(v) is Text,
        r is Some ==> kind_of(v)->Text_0 == r->Some_0@,
{
    match v {
        serde_json::Value::String(s) => Some(s),
        _ => None,
    }
}

/// Relies on serde_json::Value::is_null: whether the value is JSON null.
pub assume_specification[ serde_json::Value::is_null ](v: &serde_json::Value) -> (r: bool)
    ensures
        r <==> kind_of(*v) is Null,
;

} // verus!
