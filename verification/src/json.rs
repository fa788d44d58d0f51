//! The crate's own JSON model, and the trusted bridge from serde_json.
//!
//! Server responses arrive as JSON; the logic that reads them works on
//! [`JsonValue`], a plain recursive datatype, so that every lookup and
//! extraction is verified. Only the parse itself is trusted.

use vstd::prelude::*;

use crate::text::str_eq;

verus! {

/// A JSON document as plain data. Numbers are carried as their decimal
/// rendering: no part of the client ever reads one.
#[derive(Debug, PartialEq, Eq)]
pub enum JsonValue {
    Null,
    Bool(bool),
    Number(String),
    Text(String),
    Array(Vec<JsonValue>),
    Object(Vec<(String, JsonValue)>),
}

/// The first entry with the given key, if any.
pub open spec fn spec_lookup(entries: Seq<(String, JsonValue)>, key: Seq<char>) -> Option<
    JsonValue,
>
    decreases entries.len(),
{
    if entries.len() == 0 {
        None
    } else if entries.first().0@ == key {
        Some(entries.first().1)
    } else {
        spec_lookup(entries.drop_first(), key)
    }
}

impl JsonValue {
    /// The value under `key`, if this is an object that has one.
    pub open spec fn spec_get(self, key: Seq<char>) -> Option<JsonValue> {
        match self {
            JsonValue::Object(entries) => spec_lookup(entries@, key),
            _ => None,
        }
    }

    /// The element at `i`, if this is an array of at least `i + 1` elements.
    pub open spec fn spec_at(self, i: int) -> Option<JsonValue> {
        match self {
            JsonValue::Array(items) => if 0 <= i < items@.len() {
                Some(items@[i])
            } else {
                None
            },
            _ => None,
        }
    }

    /// The character sequence, if this is a string.
    pub open spec fn spec_text(self) -> Option<Seq<char>> {
        match self {
            JsonValue::Text(s) => Some(s@),
            _ => None,
        }
    }

    /// The elements, if this is an array.
    pub open spec fn spec_items(self) -> Option<Seq<JsonValue>> {
        match self {
            JsonValue::Array(items) => Some(items@),
            _ => None,
        }
    }

    /// Looks a key up in an object; `None` on any other value or when the
    /// key is absent.
    pub fn get<'a>(&'a self, key: &str) -> (r: Option<&'a JsonValue>)
        ensures
            match r {
                Some(v) => self.spec_get(key@) == Some(*v),
                None => self.spec_get(key@) is None,
            },
    {
        match self {
            JsonValue::Object(entries) => {
                let n = entries.len();
                let mut i: usize = 0;
                proof {
                    assert(entries@.skip(0) == entries@);
                }
                while i < n
                    invariant
                        n == entries@.len(),
                        i <= n,
                        self.spec_get(key@) == spec_lookup(entries@.skip(i as int), key@),
                    decreases n - i,
                {
                    let e = &entries[i];
                    proof {
                        assert(entries@.skip(i as int).first() == entries@[i as int]);
                    }
                    if str_eq(e.0.as_str(), key) {
                        proof {
                            assert(spec_lookup(entries@.skip(i as int), key@) == Some(
                                entries@[i as int].1,
                            ));
                        }
                        return Some(&e.1);
                    }
                    proof {
                        assert(entries@.skip(i as int).drop_first() == entries@.skip(i + 1));
                    }
                    i = i + 1;
                }
                None
            },
            _ => None,
        }
    }

    /// Indexes into an array; `None` on any other value or out of range.
    pub fn at<'a>(&'a self, i: usize) -> (r: Option<&'a JsonValue>)
        ensures
            match r {
                Some(v) => self.spec_at(i as int) == Some(*v),
                None => self.spec_at(i as int) is None,
            },
    {
        match self {
            JsonValue::Array(items) => if i < items.len() {
                Some(&items[i])
            } else {
                None
            },
            _ => None,
        }
    }

    /// The string payload, if this is a string.
    pub fn as_text<'a>(&'a self) -> (r: Option<&'a String>)
        ensures
            match r {
                Some(s) => self.spec_text() == Some(s@),
                None => self.spec_text() is None,
            },
    {
        match self {
            JsonValue::Text(s) => Some(s),
            _ => None,
        }
    }

    /// The elements, if this is an array.
    pub fn as_array<'a>(&'a self) -> (r: Option<&'a Vec<JsonValue>>)
        ensures
            match r {
                Some(items) => self.spec_items() == Some(items@),
                None => self.spec_items() is None,
            },
    {
        match self {
            JsonValue::Array(items) => Some(items),
            _ => None,
        }
    }

}

#[verifier::external_type_specification]
#[verifier::external_body]
pub struct ExValue(serde_json::Value);

/// The document a JSON text denotes, if serde_json accepts the text.
pub uninterp spec fn parsed_json(text: Seq<char>) -> Option<JsonValue>;

/// What a serde_json value holds, rendered in the crate's own JSON model.
pub uninterp spec fn value_model(v: serde_json::Value) -> JsonValue;

/// Relies on `serde_json::from_str`: a well-formed JSON text parses to the
/// document it denotes, a function of the text alone; any other text is
/// rejected.
#[verifier::external_body]
fn value_from_str(text: &str) -> (r: Option<serde_json::Value>)
    ensures
        match r {
            Some(v) => parsed_json(text@) == Some(value_model(v)),
            None => parsed_json(text@) is None,
        },
{
    serde_json::from_str(text).ok()
}

/// Relies on the shape of `serde_json::Value`: each variant is carried over
/// one-for-one, numbers as their decimal rendering.
#[verifier::external_body]
fn value_to_json(v: serde_json::Value) -> (r: JsonValue)
    ensures
        r == value_model(v),
{
    match v {
        serde_json::Value::Null => JsonValue::Null,
        serde_json::Value::Bool(b) => JsonValue::Bool(b),
        serde_json::Value::Number(n) => JsonValue::Number(n.to_string()),
        serde_json::Value::String(s) => JsonValue::Text(s),
        serde_json::Value::Array(a) => JsonValue::Array(a.into_iter().map(value_to_json).collect()),
        serde_json::Value::Object(m) => JsonValue::Object(
            m.into_iter().map(|(k, v)| (k, value_to_json(v))).collect(),
        ),
    }
}

/// Parses a JSON text into the crate's JSON model; `None` for text that is
/// not well-formed JSON.
pub fn parse_json(text: &str) -> (r: Option<JsonValue>)
    ensures
        r == parsed_json(text@),
{
    match value_from_str(text) {
        Some(v) => Some(value_to_json(v)),
        None => None,
    }
}

} // verus!
