//! What is read of a JSON object: its members by name, texts and numbers by
//! their content, everything else by its kind.

use crate::view::result_view;
use serde_json::Value;
use vstd::hash_map::StringHashMap;
use vstd::prelude::*;

verus! {

/// The value of one member of a JSON object.
#[derive(Clone, Debug, PartialEq)]
pub enum JsonValue {
    Null,
    Bool(bool),
    /// A number, in the digits it was written in.
    Number(String),
    Text(String),
    Array,
    Object,
}

/// What `serde_json` reads out of a text as a JSON object: its members by
/// their names, or the reason why the text is no JSON object. A name that
/// the text holds more than once is a member once, with the value that came
/// last.
pub uninterp spec fn json_object(text: Seq<char>) -> Result<Map<Seq<char>, JsonValue>, Seq<char>>;

/// `serde_json::from_str`, asked for an object, with each member taken over
/// kind for kind. Trusted: the result is a function of the text, and the
/// reason why a text is no JSON object is never the empty text.
#[verifier::external_body]
fn from_str(text: &str) -> (r: Result<StringHashMap<JsonValue>, String>)
    ensures
        result_view(r) == json_object(text@),
        r matches Err(complaint) ==> complaint@.len() > 0,
{
    let object = serde_json::from_str::<serde_json::Map<String, Value>>(text);
    let mut members = StringHashMap::new();
    for (name, value) in object.map_err(|e| e.to_string())? {
        members.insert(name, match value {
            Value::Null => JsonValue::Null,
            Value::Bool(b) => JsonValue::Bool(b),
            Value::Number(n) => JsonValue::Number(n.to_string()),
            Value::String(s) => JsonValue::Text(s),
            Value::Array(_) => JsonValue::Array,
            Value::Object(_) => JsonValue::Object,
        });
    }
    Ok(members)
}

/// Reads a JSON object. Its members are then looked up by their names.
pub fn parse_object(text: &str) -> (r: Result<StringHashMap<JsonValue>, String>)
    ensures
        result_view(r) == json_object(text@),
        r matches Err(complaint) ==> complaint@.len() > 0,
{
    from_str(text)
}

/// The value of the member of that name, if there is one.
pub open spec fn spec_lookup(fields: Map<Seq<char>, JsonValue>, name: Seq<char>) -> Option<
    JsonValue,
> {
    if fields.contains_key(name) {
        Some(fields[name])
    } else {
        None
    }
}

} // verus!
