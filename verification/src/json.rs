//! JSON documents, as `serde_json` reads, walks and prints them.
//!
//! A `serde_json::Value` is opaque to the verifier. What the rest of the
//! crate needs to know about one is stated over the mathematical model
//! [`Json`]. The three functions at the end of this file are the only places
//! where `serde_json` is called; their contracts are believed, not proved.

use vstd::prelude::*;

verus! {

/// Mathematical model of a JSON value.
pub enum Json {
    Null,
    Bool(bool),
    /// A number, identified by its decimal text.
    Number(Seq<char>),
    Text(Seq<char>),
    Array(Seq<Json>),
    /// An object, as a map from member names to members.
    Object(Map<Seq<char>, Json>),
}

impl Json {
    /// The member stored under `key`, and `Null` where `self` is not an
    /// object or has no such member.
    pub open spec fn member(self, key: Seq<char>) -> Json {
        match self {
            Json::Object(members) => if members.dom().contains(key) {
                members[key]
            } else {
                Json::Null
            },
            _ => Json::Null,
        }
    }
}

/// Makes `serde_json::Value` known to the verifier, as a type whose inside
/// it does not see.
#[verifier::external_type_specification]
#[verifier::external_body]
pub struct ExValue(serde_json::Value);

/// Makes `serde_json::Error` known to the verifier, in the same way.
#[verifier::external_type_specification]
#[verifier::external_body]
pub struct ExError(serde_json::Error);

/// The JSON value that a `serde_json::Value` holds.
pub uninterp spec fn json_of(value: serde_json::Value) -> Json;

/// The compact text that `serde_json` prints for a JSON value.
pub uninterp spec fn json_text(json: Json) -> Seq<char>;

/// The JSON object that `serde_json` reads from `body`, and `None` where it
/// does not take `body` for the text of one JSON object.
pub uninterp spec fn json_object(body: Seq<u8>) -> Option<Json>;

/// The text that shows a JSON value: `null` for a null value, and the compact
/// text of any other.
pub open spec fn printed(json: Json) -> Seq<char> {
    if json is Null {
        "null"@
    } else {
        json_text(json)
    }
}

/// Reads a JSON object: `serde_json::from_slice` makes a `HashMap` from member
/// names to values, and `serde_json::to_value` turns that map into one value.
///
/// Believed of the two: the outcome depends on the bytes alone; a value comes
/// back exactly when `from_slice` takes the bytes for one JSON object; and
/// that value is an object.
#[verifier::external_body]
pub(crate) fn read_object(body: &[u8]) -> (outcome: Result<serde_json::Value, serde_json::Error>)
    ensures
        match outcome {
            Ok(value) => json_object(body@) == Some(json_of(value)) && json_of(value) is Object,
            Err(_) => json_object(body@) is None,
        },
{
    let members: std::collections::HashMap<String, serde_json::Value> = serde_json::from_slice(
        body,
    )?;
    serde_json::to_value(&members)
}

/// Indexes a value by a member name, through `Value`'s `Index<&str>`.
///
/// Believed of it: the result is the member stored under `key`, and a null
/// value where `value` is not an object or has no such member.
#[verifier::external_body]
pub(crate) fn member_of<'a>(value: &'a serde_json::Value, key: &str) -> (found:
    &'a serde_json::Value)
    ensures
        json_of(*found) == json_of(*value).member(key@),
{
    &value[key]
}

/// Prints a value, through `Value`'s `Display`.
///
/// Believed of it: the result is the compact JSON text of the value, which
/// depends on the value alone and is `null` for a null value.
#[verifier::external_body]
pub(crate) fn text_of(value: &serde_json::Value) -> (text: String)
    ensures
        text@ == json_text(json_of(*value)),
        json_of(*value) is Null ==> text@ == "null"@,
{
    value.to_string()
}

} // verus!
