//! JSON objects, read and written by `serde_json`. None of the executable
//! functions in this file is verified: each contract states what the crate
//! behind it is trusted to do.

use vstd::prelude::*;

verus! {

#[verifier::external_type_specification]
#[verifier::external_body]
#[verifier::reject_recursive_types(K)]
#[verifier::reject_recursive_types(V)]
pub struct ExJsonMap<K, V>(serde_json::Map<K, V>);

#[verifier::external_type_specification]
#[verifier::external_body]
pub struct ExJsonValue(serde_json::Value);

#[verifier::external_type_specification]
#[verifier::external_body]
pub struct ExJsonError(serde_json::Error);

/// What an object holds: under each key, the value as compact JSON text.
pub uninterp spec fn json_members(object: serde_json::Map<String, serde_json::Value>) -> Map<
    Seq<char>,
    Seq<char>,
>;

/// The members of the object that a JSON text describes, if it describes
/// one.
pub uninterp spec fn json_object_members(text: Seq<char>) -> Option<Map<Seq<char>, Seq<char>>>;

/// The compact JSON text of an object with the given members.
pub uninterp spec fn json_object_text(members: Map<Seq<char>, Seq<char>>) -> Seq<char>;

/// One character as it stands inside a JSON string: the quotation mark,
/// the backslash and the control characters are escaped.
pub open spec fn json_escape(c: char) -> Seq<char> {
    if c == '"' {
        seq!['\\', '"']
    } else if c == '\\' {
        seq!['\\', '\\']
    } else if c == '\u{08}' {
        seq!['\\', 'b']
    } else if c == '\t' {
        seq!['\\', 't']
    } else if c == '\n' {
        seq!['\\', 'n']
    } else if c == '\u{0c}' {
        seq!['\\', 'f']
    } else if c == '\r' {
        seq!['\\', 'r']
    } else if (c as u32) < 32 {
        seq!['\\', 'u', '0', '0', crate::crypto::hex_digit(c as int / 16), crate::crypto::hex_digit(c as int % 16)]
    } else {
        seq![c]
    }
}

/// A text as a JSON string: its characters, escaped, between quotation
/// marks.
pub open spec fn json_string_text(s: Seq<char>) -> Seq<char> {
    seq!['"'] + s.map_values(|c: char| json_escape(c)).flatten() + seq!['"']
}

/// Calls `serde_json::from_str` for a `Map<String, Value>`. Whether an
/// object comes back, and with which members, depends on the text alone.
#[verifier::external_body]
pub(crate) fn parse_json_object(text: &str) -> (res: Result<
    serde_json::Map<String, serde_json::Value>,
    serde_json::Error,
>)
    ensures
        match res {
            Ok(object) => json_object_members(text@) == Some(json_members(object)),
            Err(_) => json_object_members(text@) is None,
        },
{
    serde_json::from_str::<serde_json::Map<String, serde_json::Value>>(text)
}

/// Calls `Map::new`. The object has no members.
#[verifier::external_body]
pub(crate) fn new_json_object() -> (object: serde_json::Map<String, serde_json::Value>)
    ensures
        (json_members(object) == Map::<Seq<char>, Seq<char>>::empty()),
{
    serde_json::Map::new()
}

/// Calls `Map::insert` with a string value. The member is added, or
/// replaces the one that had the same key.
#[verifier::external_body]
pub(crate) fn insert_json_string(
    object: &mut serde_json::Map<String, serde_json::Value>,
    key: &str,
    value: &str,
)
    ensures
        json_members(*final(object)) == json_members(*old(object)).insert(
            key@,
            json_string_text(value@),
        ),
{
    object.insert(key.to_owned(), serde_json::Value::String(value.to_owned()));
}

/// Calls `serde_json::to_string`. The text depends on the members alone:
/// the object keeps them sorted by key. Writing an object of text keys
/// into memory has no way to fail.
#[verifier::external_body]
pub(crate) fn write_json_object(object: &serde_json::Map<String, serde_json::Value>) -> (res:
    Result<String, serde_json::Error>)
    ensures
        match res {
            Ok(text) => text@ == json_object_text(json_members(*object)),
            Err(_) => false,
        },
{
    serde_json::to_string(object)
}

} // verus!
