//! JSON documents, as far as the client reads them.

use vstd::prelude::*;
use serde_json::Value;

verus! {

/// A JSON document. A number is kept as the text that spells it; an object is
/// kept as its entries, in the order in which the parser hands them out.
#[derive(Debug, PartialEq, Eq)]
pub enum JsonValue {
    Null,
    Bool(bool),
    Number(String),
    Text(String),
    Array(Vec<JsonValue>),
    Object(Vec<(String, JsonValue)>),
}

#[verifier::external_type_specification]
#[verifier::external_body]
pub struct ExValue(Value);

#[verifier::external_type_specification]
#[verifier::external_body]
pub struct ExJsonError(serde_json::Error);

/// The document that `text` spells, where it spells one.
pub uninterp spec fn json_parsed(text: Seq<char>) -> Option<Value>;

/// The document as this library holds it.
pub uninterp spec fn json_model(document: Value) -> JsonValue;

/// Calls `serde_json::from_str` for a `serde_json::Value`: the document that
/// the text spells, or the parser's error. The contract names the outcome.
#[verifier::external_body]
fn parse_outside(text: &str) -> (r: Result<Value, serde_json::Error>)
    ensures
        r is Ok <==> json_parsed(text@) is Some,
        r matches Ok(document) ==> Some(document) == json_parsed(text@),
{
    serde_json::from_str::<Value>(text)
}

/// Takes a `serde_json::Value` apart, variant by variant, and holds the same
/// document as a `JsonValue`: a number by `Display` of `serde_json::Number`,
/// an array and an object item by item. The contract names the outcome.
#[verifier::external_body]
fn model_of(document: Value) -> (r: JsonValue)
    ensures
        r == json_model(document),
{
    match document {
        Value::Null => JsonValue::Null,
        Value::Bool(b) => JsonValue::Bool(b),
        Value::Number(n) => JsonValue::Number(n.to_string()),
        Value::String(s) => JsonValue::Text(s),
        Value::Array(items) => JsonValue::Array(items.into_iter().map(model_of).collect()),
        Value::Object(entries) => JsonValue::Object(
            entries.into_iter().map(|(key, item)| (key, model_of(item))).collect(),
        ),
    }
}

/// Calls `Display` of `serde_json::Error`: the error in words.
#[verifier::external_body]
fn error_text(error: &serde_json::Error) -> (r: String) {
    error.to_string()
}

/// What `parse` makes of a text: the document it spells, if any.
pub open spec fn document_of(text: Seq<char>) -> Option<JsonValue> {
    match json_parsed(text) {
        Some(document) => Some(json_model(document)),
        None => None,
    }
}

/// Reads a text as a JSON document. Fails, with the parser's description, on
/// a text that spells none.
pub fn parse(text: &str) -> (r: Result<JsonValue, String>)
    ensures
        r is Ok <==> document_of(text@) is Some,
        r matches Ok(document) ==> Some(document) == document_of(text@),
{
    match parse_outside(text) {
        Ok(document) => Ok(model_of(document)),
        Err(e) => Err(error_text(&e)),
    }
}

/// The item of the first entry under `key`, if there is one.
pub open spec fn lookup(entries: Seq<(String, JsonValue)>, key: Seq<char>) -> Option<JsonValue>
    decreases entries.len(),
{
    if entries.len() == 0 {
        None
    } else if entries[0].0@ == key {
        Some(entries[0].1)
    } else {
        lookup(entries.drop_first(), key)
    }
}

impl JsonValue {
    /// The member of an object under `key`; none in anything but an object.
    pub open spec fn member(&self, key: Seq<char>) -> Option<JsonValue> {
        match self {
            JsonValue::Object(entries) => lookup(entries@, key),
            _ => None,
        }
    }

    /// The characters of a string; none of anything but a string.
    pub open spec fn text(&self) -> Option<Seq<char>> {
        match self {
            JsonValue::Text(s) => Some(s@),
            _ => None,
        }
    }

    /// Looks up the member of an object under `key`.
    pub fn get(&self, key: &str) -> (r: Option<&JsonValue>)
        ensures
            r is Some <==> self.member(key@) is Some,
            r matches Some(item) ==> Some(*item) == self.member(key@),
    {
        match self {
            JsonValue::Object(entries) => {
                let wanted = String::from_str(key);
                let mut i: usize = 0;
                assert(entries@.subrange(0, entries@.len() as int) =~= entries@);
                while i < entries.len()
                    invariant
                        i <= entries.len(),
                        wanted@ == key@,
                        self.member(key@) == lookup(entries@, key@),
                        lookup(entries@, key@) == lookup(
                            entries@.subrange(i as int, entries@.len() as int),
                            key@,
                        ),
                    decreases entries.len() - i,
                {
                    let ghost rest = entries@.subrange(i as int, entries@.len() as int);
                    assert(rest[0] == entries@[i as int]);
                    assert(rest.drop_first() =~= entries@.subrange(
                        i as int + 1,
                        entries@.len() as int,
                    ));
                    if entries[i].0 == wanted {
                        assert(lookup(rest, key@) == Some(rest[0].1));
                        return Some(&entries[i].1);
                    }
                    assert(lookup(rest, key@) == lookup(rest.drop_first(), key@));
                    i = i + 1;
                }
                assert(entries@.subrange(i as int, entries@.len() as int).len() == 0);
                None
            },
            _ => None,
        }
    }

    /// The characters of a string.
    pub fn as_text(&self) -> (r: Option<&String>)
        ensures
            r is Some <==> self.text() is Some,
            r matches Some(s) ==> Some(s@) == self.text(),
    {
        match self {
            JsonValue::Text(s) => Some(s),
            _ => None,
        }
    }
}

} // verus!
